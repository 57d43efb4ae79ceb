//! Dictionaries: lists of key and value strings.
use vstd::prelude::*;

verus! {

/// Flags of a dictionary.
pub struct Flags;

impl Flags {
    /// The items are sorted by key.
    pub const SORTED: u32 = 1;
}

/// An item of a dictionary: a key and a value, strings without their NUL terminators.
#[derive(Debug, Clone, PartialEq, Eq)]
pub struct DictItemRef {
    key: Vec<u8>,
    value: Vec<u8>,
}

impl DictItemRef {
    /// The key, as seen by the specification.
    pub closed spec fn spec_key(&self) -> Seq<u8> {
        self.key@
    }

    /// The value, as seen by the specification.
    pub closed spec fn spec_value(&self) -> Seq<u8> {
        self.value@
    }

    /// The item with the given key and value.
    pub fn from_tuple(value: (Vec<u8>, Vec<u8>)) -> (item: Self)
        ensures
            item.spec_key() == value.0@,
            item.spec_value() == value.1@,
    {
        DictItemRef { key: value.0, value: value.1 }
    }

    /// The key of the item.
    pub fn key(&self) -> (key: &[u8])
        ensures
            key@ == self.spec_key(),
    {
        self.key.as_slice()
    }

    /// The value of the item.
    pub fn value(&self) -> (value: &[u8])
        ensures
            value@ == self.spec_value(),
    {
        self.value.as_slice()
    }
}

/// A dictionary: flags and items.
pub struct DictRef {
    flags: u32,
    items: Vec<DictItemRef>,
}

impl View for DictRef {
    type V = Seq<DictItemRef>;

    /// The items, in order.
    closed spec fn view(&self) -> Seq<DictItemRef> {
        self.items@
    }
}

/// Whether item `i` of `items` is the last one with key `key`.
pub open spec fn spec_last_with_key(items: Seq<DictItemRef>, key: Seq<u8>, i: int) -> bool {
    &&& 0 <= i < items.len()
    &&& items[i].spec_key() == key
    &&& forall|j: int| i < j < items.len() ==> items[j].spec_key() != key
}

impl DictRef {
    /// Flags of the dictionary, as seen by the specification.
    pub closed spec fn spec_flags(&self) -> u32 {
        self.flags
    }

    /// The dictionary of `items` with the given flags.
    pub fn from_items(items: Vec<DictItemRef>, flags: u32) -> (dict: Self)
        ensures
            dict@ == items@,
            dict.spec_flags() == flags,
    {
        DictRef { flags, items }
    }

    /// Flags of the dictionary, see [Flags].
    pub fn flags(&self) -> (flags: u32)
        ensures
            flags == self.spec_flags(),
    {
        self.flags
    }

    /// Number of items.
    pub fn n_items(&self) -> (n: u32)
        requires
            self@.len() <= u32::MAX,
        ensures
            n == self@.len(),
    {
        self.items.len() as u32
    }

    /// The items, in order.
    pub fn items(&self) -> (items: &[DictItemRef])
        ensures
            items@ == self@,
    {
        self.items.as_slice()
    }

    /// Iterator over the items, in order.
    pub fn iter(&self) -> (iter: std::slice::Iter<'_, DictItemRef>)
        ensures
            vstd::std_specs::iter::IteratorSpec::remaining(&iter) == self@.map_values(
                |item: DictItemRef| &item,
            ),
    {
        let items = self.items.as_slice();
        let iter = items.iter();
        proof {
            vstd::std_specs::slice::axiom_spec_slice_iter(items);
            assert(items@.as_ref() =~= self@.map_values(|item: DictItemRef| &item));
        }
        iter
    }

    /// The value of the last item with key `key`, as a map built from the items in order
    /// holds it; none when no item has that key.
    pub fn get(&self, key: &[u8]) -> (r: Option<&[u8]>)
        ensures
            r is None <==> (forall|i: int| 0 <= i < self@.len() ==> self@[i].spec_key() != key@),
            r matches Some(v) ==> exists|i: int|
                spec_last_with_key(self@, key@, i) && v@ == #[trigger] self@[i].spec_value(),
    {
        let mut i: usize = self.items.len();
        while i > 0
            invariant
                i <= self@.len(),
                forall|j: int| i <= j < self@.len() ==> self@[j].spec_key() != key@,
            decreases i,
        {
            i = i - 1;
            let item = &self.items[i];
            if slices_equal(item.key(), key) {
                proof {
                    assert(spec_last_with_key(self@, key@, i as int));
                }
                return Some(item.value());
            }
        }
        None
    }
}

/// Whether `a` and `b` hold the same bytes.
pub fn slices_equal(a: &[u8], b: &[u8]) -> (r: bool)
    ensures
        r == (a@ == b@),
{
    if a.len() != b.len() {
        return false;
    }
    let mut i: usize = 0;
    while i < a.len()
        invariant
            i <= a@.len(),
            a@.len() == b@.len(),
            forall|j: int| 0 <= j < i ==> a@[j] == b@[j],
        decreases a@.len() - i,
    {
        if a[i] != b[i] {
            return false;
        }
        i = i + 1;
    }
    assert(a@ =~= b@);
    true
}

} // verus!

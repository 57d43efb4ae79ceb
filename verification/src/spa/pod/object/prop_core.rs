//! Props: the entries of an object body. A prop is a key and flags, two 32-bit words,
//! followed by a pod. Props are stored one after the other, each followed by its padding.
use std::marker::PhantomData;

use vstd::prelude::*;
use vstd::slice::slice_subrange;

use crate::spa::pod::iterator::{lemma_padded_concat_front, spec_padded_concat};
use crate::spa::pod::restricted::{
    lemma_le_u32, lemma_padding, lemma_read_u32, padding_len, read_u32, spec_le_u32, spec_padding,
    spec_padding_len, spec_read_u32, write_value, CloneTo,
};
use crate::spa::pod::{spec_is_pod, PodError, PodRef, PodResult, POD_ALIGN, POD_HEADER_SIZE};

verus! {

/// Size of the key and flags words that precede the pod of a prop.
pub const PROP_PREFIX_SIZE: usize = 8;

/// Size of a prop without the body of its pod.
pub const PROP_HEADER_SIZE: usize = 16;

/// Whether `p` is exactly one prop: key, flags, and a pod of the recorded size.
pub open spec fn spec_is_prop(p: Seq<u8>) -> bool {
    p.len() >= PROP_HEADER_SIZE && p.len() == PROP_HEADER_SIZE + spec_read_u32(p, 8)
}

/// The prop with the given key, flags and pod.
pub open spec fn spec_prop_bytes(key: u32, flags: u32, pod: Seq<u8>) -> Seq<u8> {
    spec_le_u32(key) + spec_le_u32(flags) + pod
}

/// Key of the prop `p`.
pub open spec fn spec_prop_key(p: Seq<u8>) -> u32 {
    spec_read_u32(p, 0)
}

/// Flags of the prop `p`.
pub open spec fn spec_prop_flags(p: Seq<u8>) -> u32 {
    spec_read_u32(p, 4)
}

/// Pod of the prop `p`.
pub open spec fn spec_prop_pod(p: Seq<u8>) -> Seq<u8> {
    p.subrange(PROP_PREFIX_SIZE as int, p.len() as int)
}

/// The props stored one after the other, each followed by its padding, in `content`.
/// Reading stops at the first prop that does not fit.
pub open spec fn spec_props(content: Seq<u8>) -> Seq<Seq<u8>>
    decreases content.len(),
{
    if content.len() < PROP_HEADER_SIZE {
        Seq::empty()
    } else {
        let size = PROP_HEADER_SIZE + spec_read_u32(content, 8);
        if size > content.len() {
            Seq::empty()
        } else {
            let next = size + spec_padding_len(size as nat);
            seq![content.subrange(0, size as int)] + if next >= content.len() {
                Seq::empty()
            } else {
                spec_props(content.subrange(next as int, content.len() as int))
            }
        }
    }
}

/// The prop that starts at `current` in `content`, and the position of the next one:
/// one step of reading the props of `content`.
pub fn next_prop_slice<'a>(content: &'a [u8], current: usize) -> (r: (Option<&'a [u8]>, usize))
    ensures
        current > content@.len() ==> r.0 is None && r.1 == current,
        current <= content@.len() ==> ({
            let rest = spec_props(content@.subrange(current as int, content@.len() as int));
            &&& rest.len() == 0 ==> r.0 is None && r.1 == current
            &&& rest.len() > 0 ==> (r.0 matches Some(p) && p@ == rest[0] && spec_is_prop(p@)
                && r.1 <= content@.len() && spec_props(
                content@.subrange(r.1 as int, content@.len() as int),
            ) == rest.drop_first())
        }),
{
    let max = content.len();
    if current > max {
        return (None, current);
    }
    let ghost rest = content@.subrange(current as int, max as int);
    if max - current < PROP_HEADER_SIZE {
        return (None, current);
    }
    let body_size = read_u32(content, current + 8) as usize;
    proof {
        assert(rest.subrange(8, 12) =~= content@.subrange(current + 8, current + 12));
    }
    if max - current - PROP_HEADER_SIZE < body_size {
        return (None, current);
    }
    let size = PROP_HEADER_SIZE + body_size;
    let data = slice_subrange(content, current, current + size);
    proof {
        assert(data@ =~= rest.subrange(0, size as int));
        assert(data@.subrange(8, 12) =~= rest.subrange(8, 12));
        lemma_padding(size as nat);
    }
    let padding = padding_len(size);
    let after = max - current - size;
    if padding >= after {
        proof {
            assert(content@.subrange(max as int, max as int) =~= Seq::<u8>::empty());
            assert(spec_props(rest) =~= seq![data@]);
        }
        (Some(data), max)
    } else {
        let next = current + size + padding;
        proof {
            assert(rest.subrange((size + padding) as int, rest.len() as int) =~= content@.subrange(
                next as int,
                max as int,
            ));
            assert(spec_props(rest).drop_first() =~= spec_props(
                content@.subrange(next as int, max as int),
            ));
        }
        (Some(data), next)
    }
}

/// Reading a prop followed by its padding and more content gives the prop, then the props
/// of the remaining content.
pub proof fn lemma_props_front(prop: Seq<u8>, rest: Seq<u8>)
    requires
        spec_is_prop(prop),
    ensures
        spec_props(prop + spec_padding(prop.len()) + rest) == seq![prop] + spec_props(rest),
{
    let content = prop + spec_padding(prop.len()) + rest;
    assert(content.subrange(8, 12) =~= prop.subrange(8, 12));
    assert(content.subrange(0, prop.len() as int) =~= prop);
    lemma_padding(prop.len());
    let next = prop.len() + spec_padding_len(prop.len());
    if next >= content.len() {
        assert(rest.len() == 0);
        assert(spec_props(rest) =~= Seq::<Seq<u8>>::empty());
        assert(spec_props(content) =~= seq![prop] + spec_props(rest));
    } else {
        assert(content.subrange(next as int, content.len() as int) =~= rest);
    }
}

/// Iterating over a padded sequence of props gives the props back, in order.
pub proof fn lemma_props_of_padded_concat(props: Seq<Seq<u8>>)
    requires
        forall|i: int| 0 <= i < props.len() ==> spec_is_prop(#[trigger] props[i]),
    ensures
        spec_props(spec_padded_concat(props)) == props,
    decreases props.len(),
{
    if props.len() == 0 {
        assert(spec_props(spec_padded_concat(props)) =~= props);
    } else {
        lemma_padded_concat_front(props);
        assert(spec_is_prop(props[0]));
        lemma_props_front(props[0], spec_padded_concat(props.drop_first()));
        assert(forall|i: int|
            0 <= i < props.drop_first().len() ==> props.drop_first()[i] == props[i + 1]);
        lemma_props_of_padded_concat(props.drop_first());
        assert(seq![props[0]] + props.drop_first() =~= props);
    }
}

/// The fields of a prop made of a key, flags and a pod are read back.
pub proof fn lemma_prop_fields(key: u32, flags: u32, pod: Seq<u8>)
    requires
        spec_is_pod(pod),
    ensures
        spec_is_prop(spec_prop_bytes(key, flags, pod)),
        spec_prop_key(spec_prop_bytes(key, flags, pod)) == key,
        spec_prop_flags(spec_prop_bytes(key, flags, pod)) == flags,
        spec_prop_pod(spec_prop_bytes(key, flags, pod)) == pod,
{
    let p = spec_prop_bytes(key, flags, pod);
    lemma_le_u32(key);
    lemma_le_u32(flags);
    lemma_read_u32(Seq::empty(), key, spec_le_u32(flags) + pod);
    assert(Seq::<u8>::empty() + spec_le_u32(key) + (spec_le_u32(flags) + pod) =~= p);
    lemma_read_u32(spec_le_u32(key), flags, pod);
    assert(p.subrange(8, 12) =~= pod.subrange(0, 4));
    assert(spec_prop_pod(p) =~= pod);
}

/// Flags of a prop.
#[derive(Debug, Clone, Copy, PartialEq, Eq, Structural)]
pub struct PodPropFlags {
    bits: u32,
}

impl PodPropFlags {
    /// The value cannot be changed.
    pub const READONLY: u32 = 1;
    /// The value is backed by hardware.
    pub const HARDWARE: u32 = 2;
    /// The value is a hint dictionary.
    pub const HINT_DICT: u32 = 4;
    /// The value must be given.
    pub const MANDATORY: u32 = 8;
    /// The choice of the value must not be fixated.
    pub const DONT_FIXATE: u32 = 16;

    /// The bits of the flags.
    pub closed spec fn spec_bits(&self) -> u32 {
        self.bits
    }

    /// The flags given by `bits`, unknown bits included.
    pub fn from_bits_retain(bits: u32) -> (flags: Self)
        ensures
            flags.spec_bits() == bits,
    {
        PodPropFlags { bits }
    }

    /// No flags.
    pub fn empty() -> (flags: Self)
        ensures
            flags.spec_bits() == 0,
    {
        PodPropFlags { bits: 0 }
    }

    /// The bits of the flags.
    pub fn bits(&self) -> (bits: u32)
        ensures
            bits == self.spec_bits(),
    {
        self.bits
    }

    /// Whether all the bits of `other` are set.
    pub fn contains(&self, other: Self) -> (r: bool)
        ensures
            r == (self.spec_bits() & other.spec_bits() == other.spec_bits()),
    {
        self.bits & other.bits == other.bits
    }
}

/// A prop in memory, whose value is read as `T`.
pub struct PodPropRef<'a, T> {
    data: &'a [u8],
    phantom: PhantomData<T>,
}

impl<'a, T> View for PodPropRef<'a, T> {
    type V = Seq<u8>;

    /// The bytes of the prop: key, flags and pod.
    closed spec fn view(&self) -> Seq<u8> {
        self.data@
    }
}

impl<'a, T> PodPropRef<'a, T> {
    #[verifier::type_invariant]
    closed spec fn wf(&self) -> bool {
        spec_is_prop(self.data@)
    }

    /// The prop made of `data`, which must be exactly one prop.
    pub fn from_slice(data: &'a [u8]) -> (prop: Self)
        requires
            spec_is_prop(data@),
        ensures
            prop@ == data@,
    {
        PodPropRef { data, phantom: PhantomData }
    }

    /// The bytes of the prop.
    pub fn as_bytes(&self) -> (bytes: &'a [u8])
        ensures
            bytes@ == self@,
            spec_is_prop(self@),
    {
        proof {
            use_type_invariant(self);
        }
        self.data
    }

    /// Key of the prop.
    pub fn key(&self) -> (key: u32)
        ensures
            key == spec_prop_key(self@),
    {
        proof {
            use_type_invariant(self);
        }
        read_u32(self.data, 0)
    }

    /// Flags of the prop.
    pub fn flags(&self) -> (flags: PodPropFlags)
        ensures
            flags.spec_bits() == spec_prop_flags(self@),
    {
        proof {
            use_type_invariant(self);
        }
        PodPropFlags::from_bits_retain(read_u32(self.data, 4))
    }

    /// Pod of the prop.
    pub fn pod(&self) -> (pod: PodRef<'a>)
        ensures
            pod@ == spec_prop_pod(self@),
    {
        proof {
            use_type_invariant(self);
        }
        let bytes = slice_subrange(self.data, PROP_PREFIX_SIZE, self.data.len());
        proof {
            assert(bytes@.subrange(0, 4) =~= self.data@.subrange(8, 12));
        }
        PodRef::from_slice_unchecked(bytes)
    }

    /// Size of the prop: key, flags and pod.
    pub fn pod_size(&self) -> (size: usize)
        ensures
            size == self@.len(),
    {
        self.data.len()
    }
}

impl<'a, T: PodPropKeyType<'a>> PodPropRef<'a, T> {
    /// The value of the prop, read as `T`.
    pub fn value(&self) -> (r: PodResult<T>)
        ensures
            spec_prop_result::<'a, T>(r, spec_prop_key(self@), spec_prop_pod(self@)),
    {
        T::try_from_prop(self.key(), self.pod())
    }
}

/// Whether `r` is the outcome of reading the prop with key `key` and pod `pod` as `T`.
pub open spec fn spec_prop_result<'a, T: PodPropKeyType<'a>>(
    r: PodResult<T>,
    key: u32,
    pod: Seq<u8>,
) -> bool {
    match T::spec_key_type(key) {
        None => r == Err::<T, PodError>(PodError::UnknownPodTypeToDowncast),
        Some(t) => if crate::spa::pod::spec_can_cast(
            t,
            crate::spa::pod::restricted::spec_pod_type(pod),
        ) {
            r matches Ok(v) && v.spec_key() == key && v.spec_pod()@ == pod
        } else {
            r == Err::<T, PodError>(
                PodError::WrongPodTypeToCast(t, crate::spa::pod::restricted::spec_pod_type(pod)),
            )
        },
    }
}

/// A typed prop value: a key of a known set, each with the type of pod it holds.
pub trait PodPropKeyType<'a>: Sized {
    /// The type that the pod of a prop with key `key` is cast to; none for unknown keys.
    spec fn spec_key_type(key: u32) -> Option<u32>;

    /// Key of the prop.
    spec fn spec_key(&self) -> u32;

    /// Pod of the prop.
    spec fn spec_pod(&self) -> PodRef<'a>;

    /// The key of a value is one of the known keys.
    proof fn lemma_key_known(&self)
        ensures
            Self::spec_key_type(self.spec_key()) is Some,
    ;

    /// The type that the pod of a prop with key `key` is cast to; none for unknown keys.
    fn key_type(key: u32) -> (r: Option<u32>)
        ensures
            r == Self::spec_key_type(key),
    ;

    /// The value with key `key` holding `pod`.
    fn from_key_and_pod(key: u32, pod: PodRef<'a>) -> (v: Self)
        requires
            Self::spec_key_type(key) is Some,
        ensures
            v.spec_key() == key,
            v.spec_pod() == pod,
    ;

    /// Key of the prop.
    fn key(&self) -> (key: u32)
        ensures
            key == self.spec_key(),
            Self::spec_key_type(key) is Some,
    ;

    /// Pod of the prop.
    fn pod(&self) -> (pod: PodRef<'a>)
        ensures
            pod == self.spec_pod(),
    ;

    /// The value of the prop with key `key` and pod `pod`: the key must be known and the
    /// pod must cast to the type of the key.
    fn try_from_prop(key: u32, pod: PodRef<'a>) -> (r: PodResult<Self>)
        ensures
            Self::spec_key_type(key) is None ==> r == Err::<Self, PodError>(
                PodError::UnknownPodTypeToDowncast,
            ),
            Self::spec_key_type(key) matches Some(t) ==> if crate::spa::pod::spec_can_cast(
                t,
                crate::spa::pod::restricted::spec_pod_type(pod@),
            ) {
                r matches Ok(v) && v.spec_key() == key && v.spec_pod() == pod
            } else {
                r == Err::<Self, PodError>(
                    PodError::WrongPodTypeToCast(t, crate::spa::pod::restricted::spec_pod_type(pod@)),
                )
            },
    {
        match Self::key_type(key) {
            None => Err(PodError::UnknownPodTypeToDowncast),
            Some(t) => {
                let pod = pod.cast(t)?;
                Ok(Self::from_key_and_pod(key, pod))
            },
        }
    }

    /// Write the prop: key, no flags, the pod and its padding.
    fn write_prop(&self, buffer: &mut Vec<u8>) -> (r: PodResult<()>)
        ensures
            r == Ok::<(), PodError>(()),
            final(buffer)@ == old(buffer)@ + spec_prop_bytes(self.spec_key(), 0, self.spec_pod()@)
                + spec_padding(self.spec_pod()@.len()),
    {
        let pod = self.pod();
        Self::write_pod_prop(buffer, self.key(), 0, &pod)
    }

    /// Write a prop with key `key` and flags `flags` holding `pod`, and the padding after it.
    fn write_pod_prop(buffer: &mut Vec<u8>, key: u32, flags: u32, pod: &PodRef) -> (r: PodResult<
        (),
    >)
        ensures
            r == Ok::<(), PodError>(()),
            final(buffer)@ == old(buffer)@ + spec_prop_bytes(key, flags, pod@) + spec_padding(
                pod@.len(),
            ),
    {
        let ghost start = buffer@;
        write_value(buffer, key);
        write_value(buffer, flags);
        pod.clone_to(buffer)?;
        proof {
            assert(buffer@ =~= start + spec_prop_bytes(key, flags, pod@) + spec_padding(pod@.len()));
        }
        Ok(())
    }
}

/// The padding after a prop is the padding after its pod.
pub proof fn lemma_prop_padding(key: u32, flags: u32, pod: Seq<u8>)
    ensures
        spec_padding(spec_prop_bytes(key, flags, pod).len()) == spec_padding(pod.len()),
{
    lemma_le_u32(key);
    lemma_le_u32(flags);
    crate::spa::pod::restricted::lemma_padding_shift(pod.len(), PROP_PREFIX_SIZE as nat);
}

/// Reading the prop written for a value gives back its key and pod; when the pod has the
/// type that the key names, reading it as `T` gives back a value with the same key and pod.
pub proof fn lemma_prop_value_roundtrip<'a, T: PodPropKeyType<'a>>(v: T, r: PodResult<T>)
    requires
        spec_is_pod(v.spec_pod()@),
        spec_prop_result::<'a, T>(
            r,
            spec_prop_key(spec_prop_bytes(v.spec_key(), 0, v.spec_pod()@)),
            spec_prop_pod(spec_prop_bytes(v.spec_key(), 0, v.spec_pod()@)),
        ),
    ensures
        spec_is_prop(spec_prop_bytes(v.spec_key(), 0, v.spec_pod()@)),
        spec_prop_key(spec_prop_bytes(v.spec_key(), 0, v.spec_pod()@)) == v.spec_key(),
        spec_prop_pod(spec_prop_bytes(v.spec_key(), 0, v.spec_pod()@)) == v.spec_pod()@,
        T::spec_key_type(v.spec_key()) matches Some(t) && crate::spa::pod::spec_can_cast(
            t,
            crate::spa::pod::restricted::spec_pod_type(v.spec_pod()@),
        ) ==> (r matches Ok(w) && w.spec_key() == v.spec_key() && w.spec_pod()@ == v.spec_pod()@),
{
    lemma_prop_fields(v.spec_key(), 0, v.spec_pod()@);
    v.lemma_key_known();
}

/// Iterator over the props stored in a content region, such as the body of an object.
pub struct ObjectPropsIterator<'a, T> {
    content: &'a [u8],
    current: usize,
    phantom: PhantomData<T>,
}

impl<'a, T> ObjectPropsIterator<'a, T> {
    /// The props that are still to be returned.
    pub closed spec fn spec_remaining(&self) -> Seq<Seq<u8>> {
        if self.current <= self.content@.len() {
            spec_props(self.content@.subrange(self.current as int, self.content@.len() as int))
        } else {
            Seq::empty()
        }
    }

    /// The content region the iterator walks.
    pub closed spec fn spec_content(&self) -> Seq<u8> {
        self.content@
    }

    /// Iterator over the props in the first `size` bytes of `content`.
    pub fn new(content: &'a [u8], size: usize) -> (iter: Self)
        requires
            size <= content@.len(),
        ensures
            iter.spec_content() == content@.subrange(0, size as int),
            iter.spec_remaining() == spec_props(content@.subrange(0, size as int)),
    {
        let content = slice_subrange(content, 0, size);
        let iter = ObjectPropsIterator { content, current: 0, phantom: PhantomData };
        proof {
            assert(iter.content@.subrange(0, iter.content@.len() as int) =~= iter.content@);
        }
        iter
    }

    /// Starts building a sequence of props of kind `T`.
    pub fn build() -> (builder: ObjectPropsBuilder<T>)
        ensures
            builder@ == Seq::<u8>::empty(),
    {
        ObjectPropsBuilder::new()
    }

    /// The raw bytes of the content region.
    pub fn as_bytes(&self) -> (bytes: &'a [u8])
        ensures
            bytes@ == self.spec_content(),
    {
        self.content
    }

    /// The next prop, if one is left.
    pub fn next(&mut self) -> (prop: Option<PodPropRef<'a, T>>)
        ensures
            final(self).spec_content() == old(self).spec_content(),
            old(self).spec_remaining().len() == 0 ==> prop is None && final(self).spec_remaining()
                == old(self).spec_remaining(),
            old(self).spec_remaining().len() > 0 ==> (prop matches Some(p) && p@ == old(
                self,
            ).spec_remaining()[0] && final(self).spec_remaining() == old(
                self,
            ).spec_remaining().drop_first()),
    {
        let (item, next) = next_prop_slice(self.content, self.current);
        self.current = next;
        match item {
            Some(data) => Some(PodPropRef::from_slice(data)),
            None => None,
        }
    }
}

/// Builder of a sequence of props of kind `T`, each followed by its padding.
pub struct ObjectPropsBuilder<T> {
    buf: Vec<u8>,
    phantom: PhantomData<T>,
}

impl<T> View for ObjectPropsBuilder<T> {
    type V = Seq<u8>;

    /// The bytes written so far.
    closed spec fn view(&self) -> Seq<u8> {
        self.buf@
    }
}

impl<T> ObjectPropsBuilder<T> {
    /// Creates an empty builder.
    pub fn new() -> (builder: Self)
        ensures
            builder@ == Seq::<u8>::empty(),
    {
        ObjectPropsBuilder { buf: Vec::new(), phantom: PhantomData }
    }

    /// Hands the written props over.
    pub fn into_pod_iter(self) -> (props: AllocatedObjectProps<T>)
        ensures
            props@ == self@,
    {
        AllocatedObjectProps { data: self.buf, phantom: PhantomData }
    }

    /// Appends a copy of the prop `prop`.
    pub fn push_prop(self, prop: &PodPropRef<'_, T>) -> (r: PodResult<Self>)
        ensures
            r matches Ok(builder) && builder@ == self@ + prop@ + spec_padding(prop@.len()),
    {
        let mut buf = self.buf;
        let bytes = prop.as_bytes();
        crate::spa::pod::restricted::write_bytes(&mut buf, bytes);
        crate::spa::pod::restricted::write_zeros(&mut buf, padding_len(bytes.len()));
        Ok(ObjectPropsBuilder { buf, phantom: PhantomData })
    }

    /// Appends the prop holding `value`.
    pub fn push_value<'a>(self, value: &T) -> (r: PodResult<Self>) where T: PodPropKeyType<'a>
        ensures
            r matches Ok(builder) && builder@ == self@ + spec_prop_bytes(
                value.spec_key(),
                0,
                value.spec_pod()@,
            ) + spec_padding(
                spec_prop_bytes(value.spec_key(), 0, value.spec_pod()@).len(),
            ),
    {
        let mut buf = self.buf;
        value.write_prop(&mut buf)?;
        proof {
            lemma_prop_padding(value.spec_key(), 0, value.spec_pod()@);
        }
        Ok(ObjectPropsBuilder { buf, phantom: PhantomData })
    }
}

/// Allocated sequence of props of kind `T`.
pub struct AllocatedObjectProps<T> {
    data: Vec<u8>,
    phantom: PhantomData<T>,
}

impl<T> View for AllocatedObjectProps<T> {
    type V = Seq<u8>;

    /// The allocated bytes.
    closed spec fn view(&self) -> Seq<u8> {
        self.data@
    }
}

impl<T> AllocatedObjectProps<T> {
    /// Iterator over the allocated props.
    pub fn iter(&self) -> (iter: ObjectPropsIterator<'_, T>)
        ensures
            iter.spec_content() == self@,
            iter.spec_remaining() == spec_props(self@),
    {
        let bytes = self.data.as_slice();
        let iter = ObjectPropsIterator::new(bytes, bytes.len());
        proof {
            assert(bytes@.subrange(0, bytes@.len() as int) =~= bytes@);
        }
        iter
    }
}

} // verus!

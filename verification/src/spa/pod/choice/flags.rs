//! Flags choice: a default value and a list of alternatives.
use std::marker::PhantomData;

use vstd::prelude::*;

use crate::spa::pod::choice::{
    spec_endless,
    lemma_encode_all_len, lemma_encode_all_push, parse_choice_values, spec_choice_content,
    spec_choice_child_size, spec_choice_pod, spec_choice_values, spec_choice_writable,
    spec_encode_all, spec_has_choice_body, write_choice_header, ChoiceType,
};
use crate::spa::pod::pod_buf::AllocatedData;
use crate::spa::pod::restricted::{
    lemma_padding_shift, spec_padding, write_align_padding, PodRawValue, PodValue,
    PrimitiveValue, WritePod, WriteValue,
};
use crate::spa::pod::{FromValue, PodError, PodRef, PodResult, POD_ALIGN};

verus! {

/// Value of a flags choice: the default and the alternatives.
#[derive(Debug, Clone, PartialEq, Eq)]
pub struct PodFlagsValue<T> {
    default: T,
    alternatives: Vec<T>,
}

impl<T> PodFlagsValue<T> {
    /// The default value.
    pub closed spec fn spec_default(&self) -> T {
        self.default
    }

    /// The alternatives.
    pub closed spec fn spec_alternatives(&self) -> Seq<T> {
        self.alternatives@
    }

    /// The elements of the choice: the default first, then the alternatives.
    pub open spec fn spec_values(&self) -> Seq<T> {
        seq![self.spec_default()] + self.spec_alternatives()
    }

    pub fn default(&self) -> (default: &T)
        ensures
            *default == self.spec_default(),
    {
        &self.default
    }

    pub fn alternatives(&self) -> (alternatives: &Vec<T>)
        ensures
            alternatives@ == self.spec_alternatives(),
    {
        &self.alternatives
    }

    pub fn new(default: T, alternatives: Vec<T>) -> (value: Self)
        ensures
            value.spec_default() == default,
            value.spec_alternatives() == alternatives@,
    {
        Self { default, alternatives }
    }

    /// Allocates the choice pod holding this value, with elements of kind `P`.
    pub fn to_alloc_pod<P: WriteValue + PodValue<Value = T>>(&self) -> (r: PodResult<
        AllocatedData<PodFlagsRef<P>>,
    >)
        requires
            spec_choice_writable::<P>(self.spec_values().len()),
        ensures
            r matches Ok(data) && data@ == spec_choice_pod::<P>(ChoiceType::FLAGS, self.spec_values())
                + spec_padding(spec_choice_pod::<P>(ChoiceType::FLAGS, self.spec_values()).len()),
    {
        AllocatedData::<PodFlagsRef<P>>::from_value(self)
    }
}

impl<T: Clone> PodFlagsValue<T> {
    /// A choice whose only alternative is the default.
    pub fn from_default(default: T) -> (value: Self)
        ensures
            cloned(default, value.spec_default()),
            value.spec_alternatives() == seq![default],
    {
        let value = Self { default: default.clone(), alternatives: vec![default] };
        proof {
            assert(value.alternatives@ =~= seq![default]);
        }
        value
    }
}

/// Kind of the flags choice pods with elements of kind `T`.
pub struct PodFlagsRef<T> {
    phantom: PhantomData<T>,
}

/// Whether reading the flags choice pod `pod` with elements of kind `T` comes to an end:
/// all its elements are gathered, so there must not be endlessly many.
pub open spec fn spec_flags_ends<T: PodRawValue>(pod: Seq<u8>) -> bool {
    spec_choice_values::<T>(pod, ChoiceType::FLAGS) is Ok ==> !spec_endless::<T>(pod)
}

/// Outcome of reading the flags choice pod `pod` with elements of kind `T`:
/// the elements, the default first.
pub open spec fn spec_flags_values<T: PodRawValue>(pod: Seq<u8>) -> PodResult<Seq<T::Value>> {
    match spec_choice_values::<T>(pod, ChoiceType::FLAGS) {
        Ok(values) => if values.len() == 0 {
            Err(
                PodError::DataIsTooShort(
                    spec_choice_child_size(pod) as usize,
                    spec_choice_content(pod).len() as usize,
                ),
            )
        } else {
            Ok(values)
        },
        Err(e) => Err(e),
    }
}

impl<T: PodRawValue> PodValue for PodFlagsRef<T> {
    type Value = PodFlagsValue<T::Value>;
}

impl<T: PodRawValue> PodFlagsRef<T> {
    /// Value of the flags choice pod `pod`.
    pub fn value(pod: &PodRef) -> (r: PodResult<PodFlagsValue<T::Value>>)
        requires
            spec_has_choice_body(pod@),
            spec_flags_ends::<T>(pod@),
        ensures
            spec_flags_values::<T>(pod@) matches Ok(values) ==> r matches Ok(v) && v.spec_values()
                == values,
            spec_flags_values::<T>(pod@) matches Err(e) ==> r == Err::<PodFlagsValue<T::Value>, PodError>(e),
    {
        let mut values = parse_choice_values::<T>(pod, ChoiceType::FLAGS)?;
        if values.len() == 0 {
            let bytes = pod.as_bytes();
            let child_size = crate::spa::pod::restricted::read_u32(bytes, 16) as usize;
            return Err(PodError::DataIsTooShort(child_size, bytes.len() - 24));
        }
        let ghost all = values@;
        let default = values.remove(0);
        proof {
            assert(seq![default] + values@ =~= all);
        }
        Ok(PodFlagsValue { default, alternatives: values })
    }
}

impl<T: WriteValue> WritePod for PodFlagsRef<T> {
    open spec fn spec_writable(value: Self::Value) -> bool {
        spec_choice_writable::<T>(value.spec_values().len())
    }

    open spec fn spec_pod_bytes(value: Self::Value) -> Seq<u8> {
        spec_choice_pod::<T>(ChoiceType::FLAGS, value.spec_values())
    }

    proof fn lemma_pod_bytes(value: Self::Value) {
        crate::spa::pod::choice::lemma_choice_pod_fields::<T>(ChoiceType::FLAGS, value.spec_values());
    }

    fn write_pod(buffer: &mut Vec<u8>, value: &Self::Value) -> PodResult<()> {
        let ghost start = buffer@;
        proof {
            T::lemma_encode(value.default);
            let n = value.spec_values().len();
            let r = T::spec_raw_size();
            assert(n <= u32::MAX) by (nonlinear_arith)
                requires
                    r >= 4,
                    16 + n * r <= u32::MAX,
            ;
        }
        let count = value.alternatives.len() + 1;
        write_choice_header::<T>(buffer, ChoiceType::FLAGS, count)?;
        let ghost after_header = buffer@;
        T::write_raw_value(buffer, &value.default);
        let mut i: usize = 0;
        proof {
            assert(seq![value.default] =~= Seq::<T::Value>::empty().push(value.default));
            lemma_encode_all_push::<T>(Seq::empty(), value.default);
            assert(spec_encode_all::<T>(Seq::empty()) =~= Seq::<u8>::empty());
            assert(value.spec_values().subrange(0, 1) =~= seq![value.default]);
            assert(buffer@ =~= after_header + spec_encode_all::<T>(
                value.spec_values().subrange(0, 1),
            ));
        }
        while i < value.alternatives.len()
            invariant
                i <= value.alternatives@.len(),
                count == value.spec_values().len(),
                buffer@ == after_header + spec_encode_all::<T>(
                    value.spec_values().subrange(0, i + 1),
                ),
            decreases value.alternatives@.len() - i,
        {
            T::write_raw_value(buffer, &value.alternatives[i]);
            proof {
                let vs = value.spec_values();
                assert(vs.subrange(0, i + 2) =~= vs.subrange(0, i + 1).push(vs[i + 1]));
                lemma_encode_all_push::<T>(vs.subrange(0, i + 1), vs[i + 1]);
            }
            i = i + 1;
        }
        proof {
            let vs = value.spec_values();
            assert(vs.subrange(0, vs.len() as int) =~= vs);
            assert(buffer@ =~= start + spec_choice_pod::<T>(ChoiceType::FLAGS, vs));
            lemma_encode_all_len::<T>(vs);
        }
        let ghost written = buffer@;
        write_align_padding(buffer)?;
        proof {
            lemma_padding_shift(
                spec_choice_pod::<T>(ChoiceType::FLAGS, value.spec_values()).len(),
                start.len(),
            );
        }
        Ok(())
    }
}

impl<T> PrimitiveValue for PodFlagsRef<T> {

}

impl<T: WriteValue> FromValue for PodFlagsRef<T> {

}

/// When cloning the default gives the default itself, as for the integers that choices
/// hold, the choice made from a default has that default, and the default as its only
/// alternative.
pub proof fn lemma_from_default_copy<T: Clone>(default: T, value: PodFlagsValue<T>)
    requires
        cloned(default, value.spec_default()),
        value.spec_alternatives() == seq![default],
        forall|x: T| cloned(default, x) ==> x == default,
    ensures
        value.spec_default() == default,
        value.spec_values() == seq![default, default],
{
    assert(value.spec_values() =~= seq![default, default]);
}

} // verus!

//! Range choice: a default value within a minimum and a maximum.
use std::marker::PhantomData;

use vstd::prelude::*;

use crate::spa::pod::choice::{
    endless, spec_endless,
    lemma_encode_all_len, lemma_encode_all_push, parse_choice_values, spec_choice_pod,
    spec_choice_values, spec_choice_writable, spec_encode_all, spec_has_choice_body,
    write_choice_header, ChoiceType,
};
use crate::spa::pod::pod_buf::AllocatedData;
use crate::spa::pod::restricted::{
    lemma_padding_shift, spec_padding, write_align_padding, PodRawValue, PodValue,
    PrimitiveValue, WritePod, WriteValue,
};
use crate::spa::pod::{FromValue, PodError, PodRef, PodResult};

verus! {

/// Value of a range choice.
#[derive(Debug, Clone, PartialEq, Eq)]
pub struct PodRangeValue<T> {
    default: T,
    min: T,
    max: T,
}

impl<T> PodRangeValue<T> {
    /// The elements of the choice, in the order they are stored: default, min, max.
    pub closed spec fn spec_values(&self) -> Seq<T> {
        seq![self.default, self.min, self.max]
    }

    pub fn default(&self) -> (v: &T)
        ensures
            *v == self.spec_values()[0],
    {
        &self.default
    }

    pub fn min(&self) -> (v: &T)
        ensures
            *v == self.spec_values()[1],
    {
        &self.min
    }

    pub fn max(&self) -> (v: &T)
        ensures
            *v == self.spec_values()[2],
    {
        &self.max
    }

    /// A range choice has 3 elements.
    pub proof fn lemma_values_len(&self)
        ensures
            self.spec_values().len() == 3,
    {
    }

    pub fn new(default: T, min: T, max: T) -> (value: Self)
        ensures
            value.spec_values().len() == 3,
            value.spec_values()[0] == default,
            value.spec_values()[1] == min,
            value.spec_values()[2] == max,
    {
        Self { default, min, max }
    }
}

impl<T: Clone> PodRangeValue<T> {
    /// A choice whose elements all equal the default.
    pub fn from_default(default: T) -> (value: Self)
        ensures
            value.spec_values().len() == 3,
            cloned(default, value.spec_values()[0]),
            cloned(default, value.spec_values()[1]),
            value.spec_values()[2] == default,
    {
        Self { default: default.clone(), min: default.clone(), max: default }
    }
}

/// Kind of the range choice pods with elements of kind `T`.
pub struct PodRangeRef<T> {
    phantom: PhantomData<T>,
}

/// Whether the range choice pod `pod` with elements of kind `T` holds at least the
/// 3 elements that a range choice needs.
pub open spec fn spec_range_complete<T: PodRawValue>(pod: Seq<u8>) -> bool {
    spec_choice_values::<T>(pod, ChoiceType::RANGE) matches Ok(values) ==> values.len() >= 3
        || spec_endless::<T>(pod)
}

/// Outcome of reading the range choice pod `pod` with elements of kind `T`.
pub open spec fn spec_range_values<T: PodRawValue>(pod: Seq<u8>) -> PodResult<Seq<T::Value>> {
    match spec_choice_values::<T>(pod, ChoiceType::RANGE) {
        Ok(values) => if values.len() > 3 || spec_endless::<T>(pod) {
            Err(PodError::UnexpectedChoiceElement)
        } else {
            Ok(values)
        },
        Err(e) => Err(e),
    }
}

impl<T: PodRawValue> PodValue for PodRangeRef<T> {
    type Value = PodRangeValue<T::Value>;
}

impl<T: PodRawValue> PodRangeRef<T> {
    /// Value of the range choice pod `pod`.
    pub fn value(pod: &PodRef) -> (r: PodResult<PodRangeValue<T::Value>>)
        requires
            spec_has_choice_body(pod@),
            spec_range_complete::<T>(pod@),
        ensures
            spec_range_values::<T>(pod@) matches Ok(values) ==> r matches Ok(v) && v.spec_values()
                == values,
            spec_range_values::<T>(pod@) matches Err(e) ==> r == Err::<PodRangeValue<T::Value>, PodError>(e),
    {
        let mut values = parse_choice_values::<T>(pod, ChoiceType::RANGE)?;
        if values.len() > 3 || endless::<T>(pod) {
            return Err(PodError::UnexpectedChoiceElement);
        }
        let ghost all = values@;
        let default = values.remove(0);
        let min = values.remove(0);
        let max = values.remove(0);
        let v = PodRangeValue { default, min, max };
        proof {
            assert(v.spec_values() =~= all);
        }
        Ok(v)
    }
}

impl<T: WriteValue> WritePod for PodRangeRef<T> {
    open spec fn spec_writable(value: Self::Value) -> bool {
        spec_choice_writable::<T>(value.spec_values().len())
    }

    open spec fn spec_pod_bytes(value: Self::Value) -> Seq<u8> {
        spec_choice_pod::<T>(ChoiceType::RANGE, value.spec_values())
    }

    proof fn lemma_pod_bytes(value: Self::Value) {
        crate::spa::pod::choice::lemma_choice_pod_fields::<T>(ChoiceType::RANGE, value.spec_values());
    }

    fn write_pod(buffer: &mut Vec<u8>, value: &Self::Value) -> PodResult<()> {
        let ghost start = buffer@;
        write_choice_header::<T>(buffer, ChoiceType::RANGE, 3)?;
        T::write_raw_value(buffer, &value.default);
        T::write_raw_value(buffer, &value.min);
        T::write_raw_value(buffer, &value.max);
        proof {
            lemma_encode_all_push::<T>(Seq::<T::Value>::empty(), value.default);
            lemma_encode_all_push::<T>(Seq::<T::Value>::empty().push(value.default), value.min);
            lemma_encode_all_push::<T>(Seq::<T::Value>::empty().push(value.default).push(value.min), value.max);
            assert(spec_encode_all::<T>(Seq::empty()) =~= Seq::<u8>::empty());
            assert(Seq::<T::Value>::empty().push(value.default).push(value.min).push(value.max) =~= value.spec_values());
            assert(buffer@ =~= start + spec_choice_pod::<T>(ChoiceType::RANGE, value.spec_values()));
            lemma_encode_all_len::<T>(value.spec_values());
        }
        write_align_padding(buffer)?;
        proof {
            lemma_padding_shift(
                spec_choice_pod::<T>(ChoiceType::RANGE, value.spec_values()).len(),
                start.len(),
            );
        }
        Ok(())
    }
}

impl<T> PrimitiveValue for PodRangeRef<T> {

}

impl<T: WriteValue> FromValue for PodRangeRef<T> {

}

} // verus!

//! None choice: a choice that is fixed to a single value.
use std::marker::PhantomData;

use vstd::prelude::*;

use crate::spa::pod::choice::{
    endless, spec_endless,
    lemma_encode_all_len, lemma_encode_all_push, parse_choice_values, spec_choice_pod,
    spec_choice_values, spec_choice_writable, spec_encode_all, spec_has_choice_body,
    write_choice_header, ChoiceType,
};
use crate::spa::pod::restricted::{
    lemma_padding_shift, write_align_padding, PodRawValue, PodValue, PrimitiveValue, WritePod,
    WriteValue,
};
use crate::spa::pod::{FromPrimitiveValue, FromValue, PodError, PodRef, PodResult};

verus! {

/// Kind of the none choice pods with an element of kind `T`.
pub struct PodNoneRef<T> {
    phantom: PhantomData<T>,
}

/// Whether the none choice pod `pod` with elements of kind `T` holds its element.
pub open spec fn spec_none_complete<T: PodRawValue>(pod: Seq<u8>) -> bool {
    spec_choice_values::<T>(pod, ChoiceType::NONE) matches Ok(values) ==> values.len() >= 1
        || spec_endless::<T>(pod)
}

/// Outcome of reading the none choice pod `pod` with elements of kind `T`.
pub open spec fn spec_none_values<T: PodRawValue>(pod: Seq<u8>) -> PodResult<Seq<T::Value>> {
    match spec_choice_values::<T>(pod, ChoiceType::NONE) {
        Ok(values) => if values.len() > 1 || spec_endless::<T>(pod) {
            Err(PodError::UnexpectedChoiceElement)
        } else {
            Ok(values)
        },
        Err(e) => Err(e),
    }
}

impl<T: PodRawValue> PodValue for PodNoneRef<T> {
    type Value = T::Value;
}

impl<T: PodRawValue> PodNoneRef<T> {
    /// Value of the none choice pod `pod`.
    pub fn value(pod: &PodRef) -> (r: PodResult<T::Value>)
        requires
            spec_has_choice_body(pod@),
            spec_none_complete::<T>(pod@),
        ensures
            spec_none_values::<T>(pod@) matches Ok(values) ==> r == Ok::<T::Value, PodError>(
                values[0],
            ),
            spec_none_values::<T>(pod@) matches Err(e) ==> r == Err::<T::Value, PodError>(e),
    {
        let mut values = parse_choice_values::<T>(pod, ChoiceType::NONE)?;
        if values.len() > 1 || endless::<T>(pod) {
            return Err(PodError::UnexpectedChoiceElement);
        }
        Ok(values.remove(0))
    }
}

impl<T: WriteValue> WritePod for PodNoneRef<T> {
    open spec fn spec_writable(value: Self::Value) -> bool {
        spec_choice_writable::<T>(1)
    }

    open spec fn spec_pod_bytes(value: Self::Value) -> Seq<u8> {
        spec_choice_pod::<T>(ChoiceType::NONE, seq![value])
    }

    proof fn lemma_pod_bytes(value: Self::Value) {
        crate::spa::pod::choice::lemma_choice_pod_fields::<T>(ChoiceType::NONE, seq![value]);
    }

    fn write_pod(buffer: &mut Vec<u8>, value: &Self::Value) -> PodResult<()> {
        let ghost start = buffer@;
        write_choice_header::<T>(buffer, ChoiceType::NONE, 1)?;
        T::write_raw_value(buffer, value);
        proof {
            lemma_encode_all_push::<T>(Seq::<T::Value>::empty(), *value);
            assert(spec_encode_all::<T>(Seq::empty()) =~= Seq::<u8>::empty());
            assert(Seq::<T::Value>::empty().push(*value) =~= seq![*value]);
            assert(buffer@ =~= start + spec_choice_pod::<T>(ChoiceType::NONE, seq![*value]));
            lemma_encode_all_len::<T>(seq![*value]);
        }
        write_align_padding(buffer)?;
        proof {
            lemma_padding_shift(
                spec_choice_pod::<T>(ChoiceType::NONE, seq![*value]).len(),
                start.len(),
            );
        }
        Ok(())
    }
}

impl<T> PrimitiveValue for PodNoneRef<T> {

}

impl<T: WriteValue> FromValue for PodNoneRef<T> {

}

impl<T: WriteValue> FromPrimitiveValue for PodNoneRef<T> {

}

} // verus!

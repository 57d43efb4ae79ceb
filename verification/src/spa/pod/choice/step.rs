//! Step choice: a default value within a minimum and a maximum, with a step.
use std::marker::PhantomData;

use vstd::prelude::*;

use crate::spa::pod::choice::{
    endless, spec_endless,
    lemma_encode_all_len, lemma_encode_all_push, parse_choice_values, spec_choice_pod,
    spec_choice_values, spec_choice_writable, spec_encode_all, spec_has_choice_body,
    write_choice_header, ChoiceType,
};
use crate::spa::pod::pod_buf::AllocatedData;
use crate::spa::pod::restricted::{
    lemma_padding_shift, spec_padding, write_align_padding, PodRawValue, PodValue,
    PrimitiveValue, WritePod, WriteValue,
};
use crate::spa::pod::{spec_pod_from_bytes, FromValue, PodError, PodRef, PodResult};

verus! {

/// Value of a step choice.
#[derive(Debug, Clone, PartialEq, Eq)]
pub struct PodStepValue<T> {
    default: T,
    min: T,
    max: T,
    step: T,
}

impl<T> PodStepValue<T> {
    /// The elements of the choice, in the order they are stored: default, min, max, step.
    pub closed spec fn spec_values(&self) -> Seq<T> {
        seq![self.default, self.min, self.max, self.step]
    }

    pub fn default(&self) -> (v: &T)
        ensures
            *v == self.spec_values()[0],
    {
        &self.default
    }

    pub fn min(&self) -> (v: &T)
        ensures
            *v == self.spec_values()[1],
    {
        &self.min
    }

    pub fn max(&self) -> (v: &T)
        ensures
            *v == self.spec_values()[2],
    {
        &self.max
    }

    pub fn step(&self) -> (v: &T)
        ensures
            *v == self.spec_values()[3],
    {
        &self.step
    }

    /// A step choice has 4 elements.
    pub proof fn lemma_values_len(&self)
        ensures
            self.spec_values().len() == 4,
    {
    }

    pub fn new(default: T, min: T, max: T, step: T) -> (value: Self)
        ensures
            value.spec_values().len() == 4,
            value.spec_values()[0] == default,
            value.spec_values()[1] == min,
            value.spec_values()[2] == max,
            value.spec_values()[3] == step,
    {
        Self { default, min, max, step }
    }

    /// Allocates the choice pod holding this value, with elements of kind `P`.
    pub fn to_alloc_pod<P: WriteValue + PodValue<Value = T>>(&self) -> (r: PodResult<
        AllocatedData<PodStepRef<P>>,
    >)
        ensures
            r matches Ok(data) && data@ == spec_choice_pod::<P>(ChoiceType::STEP, self.spec_values())
                + spec_padding(spec_choice_pod::<P>(ChoiceType::STEP, self.spec_values()).len()),
    {
        proof {
            assert(spec_choice_writable::<P>(4)) by {
                P::lemma_encode(self.default);
            }
        }
        AllocatedData::<PodStepRef<P>>::from_value(self)
    }
}

impl<T: Clone> PodStepValue<T> {
    /// A choice whose elements all equal the default.
    pub fn from_default(default: T) -> (value: Self)
        ensures
            value.spec_values().len() == 4,
            cloned(default, value.spec_values()[0]),
            cloned(default, value.spec_values()[1]),
            cloned(default, value.spec_values()[2]),
            value.spec_values()[3] == default,
    {
        Self { default: default.clone(), min: default.clone(), max: default.clone(), step: default }
    }
}

/// Kind of the step choice pods with elements of kind `T`.
pub struct PodStepRef<T> {
    phantom: PhantomData<T>,
}

/// Whether the step choice pod `pod` with elements of kind `T` holds at least the
/// 4 elements that a step choice needs.
pub open spec fn spec_step_complete<T: PodRawValue>(pod: Seq<u8>) -> bool {
    spec_choice_values::<T>(pod, ChoiceType::STEP) matches Ok(values) ==> values.len() >= 4
        || spec_endless::<T>(pod)
}

/// Outcome of reading the step choice pod `pod` with elements of kind `T`.
pub open spec fn spec_step_values<T: PodRawValue>(pod: Seq<u8>) -> PodResult<Seq<T::Value>> {
    match spec_choice_values::<T>(pod, ChoiceType::STEP) {
        Ok(values) => if values.len() > 4 || spec_endless::<T>(pod) {
            Err(PodError::UnexpectedChoiceElement)
        } else {
            Ok(values)
        },
        Err(e) => Err(e),
    }
}

impl<T: PodRawValue> PodValue for PodStepRef<T> {
    type Value = PodStepValue<T::Value>;
}

impl<T: PodRawValue> PodStepRef<T> {
    /// Value of the step choice pod `pod`.
    pub fn value(pod: &PodRef) -> (r: PodResult<PodStepValue<T::Value>>)
        requires
            spec_has_choice_body(pod@),
            spec_step_complete::<T>(pod@),
        ensures
            spec_step_values::<T>(pod@) matches Ok(values) ==> r matches Ok(v) && v.spec_values()
                == values,
            spec_step_values::<T>(pod@) matches Err(e) ==> r == Err::<PodStepValue<T::Value>, PodError>(e),
    {
        let mut values = parse_choice_values::<T>(pod, ChoiceType::STEP)?;
        if values.len() > 4 || endless::<T>(pod) {
            return Err(PodError::UnexpectedChoiceElement);
        }
        let ghost all = values@;
        let default = values.remove(0);
        let min = values.remove(0);
        let max = values.remove(0);
        let step = values.remove(0);
        let v = PodStepValue { default, min, max, step };
        proof {
            assert(v.spec_values() =~= all);
        }
        Ok(v)
    }
}

impl<T: WriteValue> WritePod for PodStepRef<T> {
    open spec fn spec_writable(value: Self::Value) -> bool {
        spec_choice_writable::<T>(value.spec_values().len())
    }

    open spec fn spec_pod_bytes(value: Self::Value) -> Seq<u8> {
        spec_choice_pod::<T>(ChoiceType::STEP, value.spec_values())
    }

    proof fn lemma_pod_bytes(value: Self::Value) {
        crate::spa::pod::choice::lemma_choice_pod_fields::<T>(ChoiceType::STEP, value.spec_values());
    }

    fn write_pod(buffer: &mut Vec<u8>, value: &Self::Value) -> PodResult<()> {
        let ghost start = buffer@;
        write_choice_header::<T>(buffer, ChoiceType::STEP, 4)?;
        T::write_raw_value(buffer, &value.default);
        T::write_raw_value(buffer, &value.min);
        T::write_raw_value(buffer, &value.max);
        T::write_raw_value(buffer, &value.step);
        proof {
            lemma_encode_all_push::<T>(Seq::<T::Value>::empty(), value.default);
            lemma_encode_all_push::<T>(Seq::<T::Value>::empty().push(value.default), value.min);
            lemma_encode_all_push::<T>(Seq::<T::Value>::empty().push(value.default).push(value.min), value.max);
            lemma_encode_all_push::<T>(Seq::<T::Value>::empty().push(value.default).push(value.min).push(value.max), value.step);
            assert(spec_encode_all::<T>(Seq::empty()) =~= Seq::<u8>::empty());
            assert(Seq::<T::Value>::empty().push(value.default).push(value.min).push(value.max).push(value.step) =~= value.spec_values());
            assert(buffer@ =~= start + spec_choice_pod::<T>(ChoiceType::STEP, value.spec_values()));
            lemma_encode_all_len::<T>(value.spec_values());
        }
        write_align_padding(buffer)?;
        proof {
            lemma_padding_shift(
                spec_choice_pod::<T>(ChoiceType::STEP, value.spec_values()).len(),
                start.len(),
            );
        }
        Ok(())
    }
}

impl<T> PrimitiveValue for PodStepRef<T> {

}

impl<T: WriteValue> FromValue for PodStepRef<T> {

}

/// The data allocated for a step value holds, before its padding, the step choice pod
/// whose default, minimum, maximum and step read back as the value's, in that order.
pub proof fn lemma_step_roundtrip<T: WriteValue>(value: PodStepValue<T::Value>)
    ensures
        ({
            let pod = spec_choice_pod::<T>(ChoiceType::STEP, value.spec_values());
            &&& spec_pod_from_bytes(pod + spec_padding(pod.len())) == Ok::<Seq<u8>, PodError>(pod)
            &&& spec_has_choice_body(pod)
            &&& spec_step_complete::<T>(pod)
            &&& spec_step_values::<T>(pod) == Ok::<Seq<T::Value>, PodError>(value.spec_values())
        }),
{
    T::lemma_kind();
    value.lemma_values_len();
    let values = value.spec_values();
    assert(spec_choice_writable::<T>(values.len()));
    crate::spa::pod::choice::lemma_choice_pod_fields::<T>(ChoiceType::STEP, values);
    crate::spa::pod::choice::lemma_choice_values_roundtrip::<T>(ChoiceType::STEP, values);
    crate::spa::pod::lemma_pod_from_padded(spec_choice_pod::<T>(ChoiceType::STEP, values));
}

} // verus!

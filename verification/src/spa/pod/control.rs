//! Controls: the timed entries of a sequence. A control is an offset and a control type,
//! two 32-bit words, followed by a pod; it is laid out as a prop.
use vstd::prelude::*;
use vstd::slice::slice_subrange;

use crate::spa::pod::object::prop::ObjectPropType;
use crate::spa::pod::object::prop_core::{
    next_prop_slice, spec_is_prop, spec_prop_flags, spec_prop_key, spec_prop_pod, spec_props,
    ObjectPropsIterator, PROP_HEADER_SIZE, PROP_PREFIX_SIZE,
};
use crate::spa::pod::restricted::{read_u32, spec_pod_type};
use crate::spa::pod::{spec_can_cast, spec_pod_body, PodError, PodRef, PodResult};
use crate::spa::type_::Type;

verus! {

/// Control types.
pub struct ControlTypes;

impl ControlTypes {
    pub const INVALID: u32 = 0;
    pub const PROPERTIES: u32 = 1;
    pub const MIDI: u32 = 2;
    pub const OSC: u32 = 3;
    pub const LAST: u32 = 4;
}

/// A control in memory.
pub struct PodControlRef<'a> {
    data: &'a [u8],
}

impl<'a> View for PodControlRef<'a> {
    type V = Seq<u8>;

    /// The bytes of the control: offset, type and pod.
    closed spec fn view(&self) -> Seq<u8> {
        self.data@
    }
}

/// The value of a control, by control type.
#[allow(non_camel_case_types)]
pub enum ControlType<'a> {
    INVALID,
    /// The props held by the body of the control's pod.
    PROPERTIES(ObjectPropsIterator<'a, ObjectPropType<'a>>),
    /// A bytes pod holding MIDI data.
    MIDI(PodRef<'a>),
    /// A bytes pod holding an OSC packet.
    OSC(PodRef<'a>),
}

impl<'a> PodControlRef<'a> {
    #[verifier::type_invariant]
    closed spec fn wf(&self) -> bool {
        spec_is_prop(self.data@)
    }

    /// The control made of `data`, which must be exactly one control.
    pub fn from_slice(data: &'a [u8]) -> (control: Self)
        requires
            spec_is_prop(data@),
        ensures
            control@ == data@,
    {
        PodControlRef { data }
    }

    /// Offset of the control, in samples.
    pub fn offset(&self) -> (offset: u32)
        ensures
            offset == spec_prop_key(self@),
    {
        proof {
            use_type_invariant(self);
        }
        read_u32(self.data, 0)
    }

    /// Type of the control.
    pub fn type_(&self) -> (t: u32)
        ensures
            t == spec_prop_flags(self@),
    {
        proof {
            use_type_invariant(self);
        }
        read_u32(self.data, 4)
    }

    /// Pod of the control.
    pub fn value_pod(&self) -> (pod: PodRef<'a>)
        ensures
            pod@ == spec_prop_pod(self@),
    {
        proof {
            use_type_invariant(self);
        }
        let bytes = slice_subrange(self.data, PROP_PREFIX_SIZE, self.data.len());
        proof {
            assert(bytes@.subrange(0, 4) =~= self.data@.subrange(8, 12));
        }
        PodRef::from_slice_unchecked(bytes)
    }

    /// Size of the control: offset, type and pod.
    pub fn pod_size(&self) -> (size: usize)
        ensures
            size == self@.len(),
            spec_is_prop(self@),
    {
        proof {
            use_type_invariant(self);
        }
        self.data.len()
    }

    /// The value of the control, read according to its type.
    pub fn value(&self) -> (r: PodResult<ControlType<'a>>)
        ensures
            spec_prop_flags(self@) == ControlTypes::INVALID ==> r matches Ok(ControlType::INVALID),
            spec_prop_flags(self@) == ControlTypes::PROPERTIES ==> (r matches Ok(
                ControlType::PROPERTIES(iter),
            ) && iter.spec_content() == spec_pod_body(spec_prop_pod(self@))
                && iter.spec_remaining() == spec_props(spec_pod_body(spec_prop_pod(self@)))),
            spec_prop_flags(self@) == ControlTypes::MIDI ==> if spec_can_cast(
                Type::BYTES,
                spec_pod_type(spec_prop_pod(self@)),
            ) {
                r matches Ok(ControlType::MIDI(pod)) && pod@ == spec_prop_pod(self@)
            } else {
                r == Err::<ControlType<'a>, PodError>(
                    PodError::WrongPodTypeToCast(Type::BYTES, spec_pod_type(spec_prop_pod(self@))),
                )
            },
            spec_prop_flags(self@) == ControlTypes::OSC ==> if spec_can_cast(
                Type::BYTES,
                spec_pod_type(spec_prop_pod(self@)),
            ) {
                r matches Ok(ControlType::OSC(pod)) && pod@ == spec_prop_pod(self@)
            } else {
                r == Err::<ControlType<'a>, PodError>(
                    PodError::WrongPodTypeToCast(Type::BYTES, spec_pod_type(spec_prop_pod(self@))),
                )
            },
            spec_prop_flags(self@) > ControlTypes::OSC ==> r == Err::<ControlType<'a>, PodError>(
                PodError::UnexpectedControlType(spec_prop_flags(self@)),
            ),
    {
        let t = self.type_();
        if t == ControlTypes::INVALID {
            Ok(ControlType::INVALID)
        } else if t == ControlTypes::PROPERTIES {
            let body = self.value_pod().body();
            let iter = ObjectPropsIterator::new(body, body.len());
            proof {
                assert(body@.subrange(0, body@.len() as int) =~= body@);
            }
            Ok(ControlType::PROPERTIES(iter))
        } else if t == ControlTypes::MIDI {
            let pod = self.value_pod().cast(Type::BYTES)?;
            Ok(ControlType::MIDI(pod))
        } else if t == ControlTypes::OSC {
            let pod = self.value_pod().cast(Type::BYTES)?;
            Ok(ControlType::OSC(pod))
        } else {
            Err(PodError::UnexpectedControlType(t))
        }
    }
}

/// Iterator over the controls stored in a content region, such as the body of a sequence.
pub struct PodControlIterator<'a> {
    content: &'a [u8],
    current: usize,
}

impl<'a> PodControlIterator<'a> {
    /// The controls that are still to be returned.
    pub closed spec fn spec_remaining(&self) -> Seq<Seq<u8>> {
        if self.current <= self.content@.len() {
            spec_props(self.content@.subrange(self.current as int, self.content@.len() as int))
        } else {
            Seq::empty()
        }
    }

    /// The content region the iterator walks.
    pub closed spec fn spec_content(&self) -> Seq<u8> {
        self.content@
    }

    /// Iterator over the controls in the first `size` bytes of `content`.
    pub fn new(content: &'a [u8], size: usize) -> (iter: Self)
        requires
            size <= content@.len(),
        ensures
            iter.spec_content() == content@.subrange(0, size as int),
            iter.spec_remaining() == spec_props(content@.subrange(0, size as int)),
    {
        let content = slice_subrange(content, 0, size);
        let iter = PodControlIterator { content, current: 0 };
        proof {
            assert(iter.content@.subrange(0, iter.content@.len() as int) =~= iter.content@);
        }
        iter
    }

    /// The raw bytes of the content region.
    pub fn as_bytes(&self) -> (bytes: &'a [u8])
        ensures
            bytes@ == self.spec_content(),
    {
        self.content
    }

    /// The next control, if one is left.
    pub fn next(&mut self) -> (control: Option<PodControlRef<'a>>)
        ensures
            final(self).spec_content() == old(self).spec_content(),
            old(self).spec_remaining().len() == 0 ==> control is None
                && final(self).spec_remaining() == old(self).spec_remaining(),
            old(self).spec_remaining().len() > 0 ==> (control matches Some(c) && c@ == old(
                self,
            ).spec_remaining()[0] && final(self).spec_remaining() == old(
                self,
            ).spec_remaining().drop_first()),
    {
        let (item, next) = next_prop_slice(self.content, self.current);
        self.current = next;
        match item {
            Some(data) => Some(PodControlRef::from_slice(data)),
            None => None,
        }
    }
}

} // verus!

//! Id pods: a 32-bit identifier, such as a [Type](crate::spa::type_::Type) or an enum value.
use vstd::bytes::spec_u32_from_le_bytes;
use vstd::prelude::*;

use crate::spa::pod::pod_buf::AllocatedData;
use crate::spa::pod::restricted::{
    lemma_le_u32, read_u32, spec_le_u32, spec_padding, PodRawValue, PodValue, WritePod,
    WriteValue,
};
use crate::spa::pod::FromPrimitiveValue;
use crate::spa::type_::Type;

verus! {

/// Kind of the id pods.
pub struct PodIdRef;

impl PodValue for PodIdRef {
    type Value = u32;
}

impl PodRawValue for PodIdRef {
    open spec fn spec_static_type() -> u32 {
        Type::ID
    }

    open spec fn spec_raw_size() -> nat {
        4
    }

    proof fn lemma_kind() {
    }

    open spec fn spec_decode(raw: Seq<u8>) -> u32 {
        spec_u32_from_le_bytes(raw)
    }

    fn static_type() -> u32 {
        Type::ID
    }

    fn raw_size() -> usize {
        4
    }

    fn read_raw_value(bytes: &[u8], offset: usize) -> u32 {
        read_u32(bytes, offset)
    }
}

impl WriteValue for PodIdRef {
    open spec fn spec_encode(value: u32) -> Seq<u8> {
        spec_le_u32(value)
    }

    proof fn lemma_encode(value: u32) {
        lemma_le_u32(value);
    }

    fn write_raw_value(buffer: &mut Vec<u8>, value: &u32) {
        crate::spa::pod::restricted::write_value(buffer, *value);
    }
}

/// A value that id pods hold: a 32-bit identifier.
pub trait PodIdType {
    /// The identifier, as seen by the specification.
    spec fn spec_id(&self) -> u32;

    /// The identifier.
    fn id(&self) -> (id: u32)
        ensures
            id == self.spec_id(),
    ;

    /// Allocates the id pod holding this value.
    fn as_alloc_pod(&self) -> (r: AllocatedData<PodIdRef>)
        ensures
            r@ == PodIdRef::spec_pod_bytes(self.spec_id()) + spec_padding(
                PodIdRef::spec_pod_bytes(self.spec_id()).len(),
            ),
    {
        match PodIdRef::from_primitive(self.id()) {
            Ok(data) => data,
            Err(_) => vstd::pervasive::unreached(),
        }
    }
}

impl PodIdType for u32 {
    open spec fn spec_id(&self) -> u32 {
        *self
    }

    fn id(&self) -> u32 {
        *self
    }
}

} // verus!

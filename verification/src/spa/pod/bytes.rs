//! Bytes pods: an arbitrary byte string.
use vstd::prelude::*;

use crate::spa::pod::restricted::{
    lemma_header, lemma_padding_shift, spec_header, spec_pod_body_size, write_align_padding,
    write_bytes, write_header, PodValue, WritePod, spec_padding,
};
use crate::spa::pod::{spec_is_pod, spec_pod_body, FromValue, PodError, PodRef, PodResult, POD_ALIGN};
use crate::spa::type_::Type;

verus! {

/// Kind of the bytes pods.
pub struct PodBytesRef;

impl PodValue for PodBytesRef {
    type Value = Vec<u8>;
}

/// The bytes pod holding `bytes`, without padding.
pub open spec fn spec_bytes_pod(bytes: Seq<u8>) -> Seq<u8> {
    spec_raw_bytes_pod(Type::BYTES, bytes)
}

impl PodBytesRef {
    /// The bytes held by the bytes pod `pod`: its body.
    pub fn value<'a>(pod: &PodRef<'a>) -> (r: PodResult<&'a [u8]>)
        ensures
            r matches Ok(bytes) && bytes@ == spec_pod_body(pod@),
    {
        Ok(pod.body())
    }
}

impl WritePod for PodBytesRef {
    open spec fn spec_writable(value: Vec<u8>) -> bool {
        value@.len() <= u32::MAX
    }

    open spec fn spec_pod_bytes(value: Vec<u8>) -> Seq<u8> {
        spec_bytes_pod(value@)
    }

    proof fn lemma_pod_bytes(value: Vec<u8>) {
        lemma_header(value@.len() as u32, Type::BYTES, value@);
    }

    fn write_pod(buffer: &mut Vec<u8>, value: &Vec<u8>) -> PodResult<()> {
        write_raw_bytes_pod(buffer, Type::BYTES, value.as_slice())
    }
}

/// The pod of type `pod_type` whose body is `bytes`, without padding.
pub open spec fn spec_raw_bytes_pod(pod_type: u32, bytes: Seq<u8>) -> Seq<u8> {
    spec_header(bytes.len() as u32, pod_type) + bytes
}

/// Write the pod of type `pod_type` whose body is `bytes`, followed by the padding.
pub fn write_raw_bytes_pod(buffer: &mut Vec<u8>, pod_type: u32, bytes: &[u8]) -> (r: PodResult<()>)
    requires
        bytes@.len() <= u32::MAX,
    ensures
        old(buffer)@.len() % (POD_ALIGN as nat) == 0 ==> r == Ok::<(), PodError>(())
            && final(buffer)@ == old(buffer)@ + spec_raw_bytes_pod(pod_type, bytes@) + spec_padding(
            spec_raw_bytes_pod(pod_type, bytes@).len(),
        ),
        old(buffer)@.len() % (POD_ALIGN as nat) != 0 ==> r == Err::<(), PodError>(
            PodError::PodIsNotAligned,
        ) && final(buffer)@ == old(buffer)@,
{
    let ghost start = buffer@;
    write_header(buffer, bytes.len() as u32, pod_type)?;
    write_bytes(buffer, bytes);
    proof {
        lemma_header(bytes@.len() as u32, pod_type, bytes@);
        assert(buffer@ =~= start + spec_raw_bytes_pod(pod_type, bytes@));
    }
    write_align_padding(buffer)?;
    proof {
        lemma_padding_shift(spec_raw_bytes_pod(pod_type, bytes@).len(), start.len());
    }
    Ok(())
}

impl FromValue for PodBytesRef {

}

/// Reading a written bytes pod gives the bytes back.
pub proof fn lemma_bytes_roundtrip(bytes: Seq<u8>)
    requires
        bytes.len() <= u32::MAX,
    ensures
        spec_is_pod(spec_bytes_pod(bytes)),
        crate::spa::pod::restricted::spec_pod_type(spec_bytes_pod(bytes)) == Type::BYTES,
        spec_pod_body(spec_bytes_pod(bytes)) == bytes,
{
    lemma_header(bytes.len() as u32, Type::BYTES, bytes);
    assert(spec_pod_body(spec_bytes_pod(bytes)) =~= bytes);
}

/// A pod written with a raw body has the given type and body.
pub proof fn lemma_raw_bytes_pod(pod_type: u32, bytes: Seq<u8>)
    requires
        bytes.len() <= u32::MAX,
    ensures
        spec_is_pod(spec_raw_bytes_pod(pod_type, bytes)),
        crate::spa::pod::restricted::spec_pod_type(spec_raw_bytes_pod(pod_type, bytes)) == pod_type,
        spec_pod_body(spec_raw_bytes_pod(pod_type, bytes)) == bytes,
{
    lemma_header(bytes.len() as u32, pod_type, bytes);
    assert(spec_pod_body(spec_raw_bytes_pod(pod_type, bytes)) =~= bytes);
}

} // verus!

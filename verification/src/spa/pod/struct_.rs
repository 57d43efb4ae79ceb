//! Struct pods: a sequence of pods, each followed by its padding.
use vstd::prelude::*;

use crate::spa::pod::iterator::{spec_pods, PodIterator};
use crate::spa::pod::restricted::{
    lemma_header, lemma_padding_shift, spec_header, write_align_padding, write_bytes,
    write_header, PodValue, WritePod,
};
use crate::spa::pod::{spec_is_pod, spec_pod_body, FromValue, PodRef, PodResult};
use crate::spa::type_::Type;

verus! {

/// Kind of the struct pods. The value is an iterator over the fields.
pub struct PodStructRef<'a> {
    phantom: std::marker::PhantomData<&'a ()>,
}

impl<'a> PodValue for PodStructRef<'a> {
    type Value = PodIterator<'a>;
}

/// The struct pod holding the fields region `content`, without padding.
pub open spec fn spec_struct_pod(content: Seq<u8>) -> Seq<u8> {
    spec_header(content.len() as u32, Type::STRUCT) + content
}

impl<'a> PodStructRef<'a> {
    /// Iterator over the fields of the struct pod `pod`: the pods stored in its body.
    pub fn value(pod: &PodRef<'a>) -> (r: PodResult<PodIterator<'a>>)
        ensures
            r matches Ok(iter) && iter.spec_content() == spec_pod_body(pod@)
                && iter.spec_remaining() == spec_pods(spec_pod_body(pod@)),
    {
        let body = pod.body();
        let iter = PodIterator::new(body, body.len());
        proof {
            assert(body@.subrange(0, body@.len() as int) =~= body@);
        }
        Ok(iter)
    }
}

impl<'a> WritePod for PodStructRef<'a> {
    open spec fn spec_writable(value: PodIterator<'a>) -> bool {
        value.spec_content().len() <= u32::MAX
    }

    open spec fn spec_pod_bytes(value: PodIterator<'a>) -> Seq<u8> {
        spec_struct_pod(value.spec_content())
    }

    proof fn lemma_pod_bytes(value: PodIterator<'a>) {
        lemma_header(value.spec_content().len() as u32, Type::STRUCT, value.spec_content());
    }

    fn write_pod(buffer: &mut Vec<u8>, value: &PodIterator<'a>) -> PodResult<()> {
        let ghost start = buffer@;
        let content = value.as_bytes();
        write_header(buffer, content.len() as u32, Type::STRUCT)?;
        write_bytes(buffer, content);
        proof {
            assert(buffer@ =~= start + Self::spec_pod_bytes(*value));
        }
        write_align_padding(buffer)?;
        proof {
            lemma_padding_shift(Self::spec_pod_bytes(*value).len(), start.len());
        }
        Ok(())
    }
}

impl<'a> FromValue for PodStructRef<'a> {

}

/// Reading a written struct pod gives back its fields region.
pub proof fn lemma_struct_roundtrip(content: Seq<u8>)
    requires
        content.len() <= u32::MAX,
    ensures
        spec_is_pod(spec_struct_pod(content)),
        crate::spa::pod::restricted::spec_pod_type(spec_struct_pod(content)) == Type::STRUCT,
        spec_pod_body(spec_struct_pod(content)) == content,
{
    lemma_header(content.len() as u32, Type::STRUCT, content);
    assert(spec_pod_body(spec_struct_pod(content)) =~= content);
}

} // verus!

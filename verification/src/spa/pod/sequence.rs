//! Sequence pods: a sequence header (unit and padding), followed by timed controls.
use vstd::prelude::*;
use vstd::slice::slice_subrange;

use crate::spa::pod::control::PodControlIterator;
use crate::spa::pod::object::prop_core::spec_props;
use crate::spa::pod::restricted::{
    lemma_header, lemma_padding_shift, spec_header, write_align_padding, write_bytes,
    write_header, PodValue, WritePod,
};
use crate::spa::pod::{spec_is_pod, spec_pod_body, FromValue, PodRef, PodResult};
use crate::spa::type_::Type;

verus! {

/// Size of the sequence header: unit and padding.
pub const SEQUENCE_BODY_SIZE: usize = 8;

/// Kind of the sequence pods. The value is an iterator over the controls.
pub struct PodSequenceRef<'a> {
    phantom: std::marker::PhantomData<&'a ()>,
}

impl<'a> PodValue for PodSequenceRef<'a> {
    type Value = PodControlIterator<'a>;
}

/// The controls region of the body `body` of a sequence pod: what follows the sequence
/// header; empty when the body is shorter than the header.
pub open spec fn spec_sequence_content(body: Seq<u8>) -> Seq<u8> {
    if body.len() < SEQUENCE_BODY_SIZE {
        Seq::empty()
    } else {
        body.subrange(SEQUENCE_BODY_SIZE as int, body.len() as int)
    }
}

/// The sequence pod written for the controls region `content`: the header, then the
/// controls region as the body, without padding.
pub open spec fn spec_sequence_pod(content: Seq<u8>) -> Seq<u8> {
    spec_header(content.len() as u32, Type::SEQUENCE) + content
}

impl<'a> PodSequenceRef<'a> {
    /// Iterator over the controls of the sequence pod `pod`.
    pub fn value(pod: &PodRef<'a>) -> (r: PodResult<PodControlIterator<'a>>)
        ensures
            r matches Ok(iter) && iter.spec_content() == spec_sequence_content(spec_pod_body(pod@))
                && iter.spec_remaining() == spec_props(spec_sequence_content(spec_pod_body(pod@))),
    {
        let body = pod.body();
        let content = if body.len() < SEQUENCE_BODY_SIZE {
            slice_subrange(body, 0, 0)
        } else {
            slice_subrange(body, SEQUENCE_BODY_SIZE, body.len())
        };
        let iter = PodControlIterator::new(content, content.len());
        proof {
            assert(content@.subrange(0, content@.len() as int) =~= content@);
            if body@.len() < SEQUENCE_BODY_SIZE {
                assert(content@ =~= Seq::<u8>::empty());
            }
        }
        Ok(iter)
    }
}

impl<'a> WritePod for PodSequenceRef<'a> {
    open spec fn spec_writable(value: PodControlIterator<'a>) -> bool {
        value.spec_content().len() <= u32::MAX
    }

    open spec fn spec_pod_bytes(value: PodControlIterator<'a>) -> Seq<u8> {
        spec_sequence_pod(value.spec_content())
    }

    proof fn lemma_pod_bytes(value: PodControlIterator<'a>) {
        lemma_header(value.spec_content().len() as u32, Type::SEQUENCE, value.spec_content());
    }

    fn write_pod(buffer: &mut Vec<u8>, value: &PodControlIterator<'a>) -> PodResult<()> {
        let ghost start = buffer@;
        let content = value.as_bytes();
        write_header(buffer, content.len() as u32, Type::SEQUENCE)?;
        write_bytes(buffer, content);
        proof {
            assert(buffer@ =~= start + Self::spec_pod_bytes(*value));
        }
        write_align_padding(buffer)?;
        proof {
            lemma_padding_shift(Self::spec_pod_bytes(*value).len(), start.len());
        }
        Ok(())
    }
}

impl<'a> FromValue for PodSequenceRef<'a> {

}

/// The body of a written sequence pod is the controls region that was written.
pub proof fn lemma_sequence_written_body(content: Seq<u8>)
    requires
        content.len() <= u32::MAX,
    ensures
        spec_is_pod(spec_sequence_pod(content)),
        crate::spa::pod::restricted::spec_pod_type(spec_sequence_pod(content)) == Type::SEQUENCE,
        spec_pod_body(spec_sequence_pod(content)) == content,
{
    lemma_header(content.len() as u32, Type::SEQUENCE, content);
    assert(spec_pod_body(spec_sequence_pod(content)) =~= content);
}

} // verus!

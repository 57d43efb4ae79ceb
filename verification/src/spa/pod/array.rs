//! Array pods: raw elements of one kind and size, stored one after the other.
use std::marker::PhantomData;

use vstd::prelude::*;

use crate::spa::pod::iterator::PodValueIterator;
use crate::spa::pod::restricted::{
    lemma_header, lemma_padding_shift, lemma_read_u32, read_u32, spec_header, spec_le_u32,
    spec_read_u32, write_align_padding, write_bytes, write_header, PodRawValue, PodValue,
    WritePod,
};
use crate::spa::pod::choice::spec_elements;
use crate::spa::pod::{spec_is_pod, spec_pod_body, FromValue, PodRef, PodResult};
use crate::spa::type_::Type;

verus! {

/// Size of the array body header: element size and element type.
pub const ARRAY_BODY_SIZE: usize = 8;

/// Kind of the array pods with elements of kind `T`.
/// The value is an iterator over the elements.
pub struct PodArrayRef<'a, T> {
    phantom: PhantomData<&'a T>,
}

impl<'a, T: PodRawValue> PodValue for PodArrayRef<'a, T> {
    type Value = PodValueIterator<'a, T>;
}

/// Element size recorded in the body `body` of an array pod.
pub open spec fn spec_array_child_size(body: Seq<u8>) -> u32 {
    spec_read_u32(body, 0)
}

/// Element type recorded in the body `body` of an array pod.
pub open spec fn spec_array_child_type(body: Seq<u8>) -> u32 {
    spec_read_u32(body, 4)
}

/// The elements region of the body `body` of an array pod.
pub open spec fn spec_array_content(body: Seq<u8>) -> Seq<u8> {
    body.subrange(ARRAY_BODY_SIZE as int, body.len() as int)
}

/// The array pod holding `content`, elements of size `element_size` and type `child_type`,
/// without padding.
pub open spec fn spec_array_pod(content: Seq<u8>, element_size: u32, child_type: u32) -> Seq<u8> {
    spec_header((content.len() + ARRAY_BODY_SIZE) as u32, Type::ARRAY) + spec_le_u32(element_size)
        + spec_le_u32(child_type) + content
}

/// The body of an array pod: element size and type, then the elements.
pub struct PodArrayBodyRef {
    /// Size of each element.
    pub child_size: u32,
    /// Type of the elements.
    pub child_type: u32,
}

impl<'a, T: PodRawValue> PodArrayRef<'a, T> {
    /// Element size and type of the array pod `pod`.
    /// The body must hold the element size and type.
    pub fn body(pod: &PodRef) -> (body: PodArrayBodyRef)
        requires
            spec_pod_body(pod@).len() >= ARRAY_BODY_SIZE,
        ensures
            body.child_size == spec_array_child_size(spec_pod_body(pod@)),
            body.child_type == spec_array_child_type(spec_pod_body(pod@)),
    {
        let body = pod.body();
        let child_size = read_u32(body, 0);
        let child_type = read_u32(body, 4);
        proof {
            assert(body@.subrange(0, 4) =~= spec_pod_body(pod@).subrange(0, 4));
            assert(body@.subrange(4, 8) =~= spec_pod_body(pod@).subrange(4, 8));
        }
        PodArrayBodyRef { child_size, child_type }
    }

    /// Body size recorded in the header of the array pod `pod`.
    pub fn body_size(pod: &PodRef) -> (size: usize)
        ensures
            size == spec_pod_body(pod@).len(),
    {
        pod.body().len()
    }

    /// Iterator over the elements of the array pod `pod`, read as elements of kind `T`.
    /// The body must hold the element size and type.
    pub fn value(pod: &PodRef<'a>) -> (r: PodResult<PodValueIterator<'a, T>>)
        requires
            spec_pod_body(pod@).len() >= ARRAY_BODY_SIZE,
        ensures
            r matches Ok(iter) && iter.spec_content() == spec_array_content(spec_pod_body(pod@))
                && iter.spec_element_size() == spec_array_child_size(spec_pod_body(pod@))
                && iter.spec_remaining() == spec_elements::<T>(
                spec_array_content(spec_pod_body(pod@)),
                spec_array_child_size(spec_pod_body(pod@)) as nat,
            ),
    {
        let body = pod.body();
        let child_size = read_u32(body, 0);
        proof {
            assert(body@.subrange(0, 4) =~= spec_pod_body(pod@).subrange(0, 4));
        }
        let content = vstd::slice::slice_subrange(body, ARRAY_BODY_SIZE, body.len());
        let iter = PodValueIterator::new(content, content.len(), child_size as usize);
        proof {
            assert(content@.subrange(0, content@.len() as int) =~= content@);
        }
        Ok(iter)
    }

    /// Number of elements of the array pod `pod`.
    /// The body must hold the element size and type, and the element size must not be zero.
    pub fn elements(pod: &PodRef) -> (n: u32)
        requires
            spec_pod_body(pod@).len() >= ARRAY_BODY_SIZE,
            spec_array_child_size(spec_pod_body(pod@)) > 0,
        ensures
            n == ((spec_pod_body(pod@).len() - ARRAY_BODY_SIZE) / (spec_array_child_size(
                spec_pod_body(pod@),
            ) as int)) as u32,
    {
        let body = Self::body(pod);
        let size = Self::body_size(pod);
        ((size - ARRAY_BODY_SIZE) / body.child_size as usize) as u32
    }
}

impl<'a, T: PodRawValue> WritePod for PodArrayRef<'a, T> {
    open spec fn spec_writable(value: PodValueIterator<'a, T>) -> bool {
        &&& value.spec_content().len() + ARRAY_BODY_SIZE <= u32::MAX
        &&& value.spec_element_size() <= u32::MAX
    }

    open spec fn spec_pod_bytes(value: PodValueIterator<'a, T>) -> Seq<u8> {
        spec_array_pod(value.spec_content(), value.spec_element_size() as u32, T::spec_static_type())
    }

    proof fn lemma_pod_bytes(value: PodValueIterator<'a, T>) {
        let content = value.spec_content();
        lemma_header(
            (content.len() + ARRAY_BODY_SIZE) as u32,
            Type::ARRAY,
            spec_le_u32(value.spec_element_size() as u32) + spec_le_u32(T::spec_static_type())
                + content,
        );
        crate::spa::pod::restricted::lemma_le_u32(value.spec_element_size() as u32);
        crate::spa::pod::restricted::lemma_le_u32(T::spec_static_type());
        assert(Self::spec_pod_bytes(value) =~= spec_header(
            (content.len() + ARRAY_BODY_SIZE) as u32,
            Type::ARRAY,
        ) + (spec_le_u32(value.spec_element_size() as u32) + spec_le_u32(T::spec_static_type())
            + content));
    }

    fn write_pod(buffer: &mut Vec<u8>, value: &PodValueIterator<'a, T>) -> PodResult<()> {
        let ghost start = buffer@;
        let content = value.as_bytes();
        let element_size = value.element_size();
        write_header(buffer, (content.len() + ARRAY_BODY_SIZE) as u32, Type::ARRAY)?;
        crate::spa::pod::restricted::write_value(buffer, element_size as u32);
        crate::spa::pod::restricted::write_value(buffer, T::static_type());
        write_bytes(buffer, content);
        proof {
            assert(buffer@ =~= start + Self::spec_pod_bytes(*value));
            Self::lemma_pod_bytes(*value);
        }
        write_align_padding(buffer)?;
        proof {
            lemma_padding_shift(Self::spec_pod_bytes(*value).len(), start.len());
        }
        Ok(())
    }
}

impl<'a, T: PodRawValue> FromValue for PodArrayRef<'a, T> {

}

/// Reading a written array pod gives back the element size, the element type and the
/// elements region.
pub proof fn lemma_array_roundtrip(content: Seq<u8>, element_size: u32, child_type: u32)
    requires
        content.len() + ARRAY_BODY_SIZE <= u32::MAX,
    ensures
        spec_is_pod(spec_array_pod(content, element_size, child_type)),
        crate::spa::pod::restricted::spec_pod_type(spec_array_pod(content, element_size, child_type))
            == Type::ARRAY,
        spec_pod_body(spec_array_pod(content, element_size, child_type)).len() >= ARRAY_BODY_SIZE,
        spec_array_child_size(spec_pod_body(spec_array_pod(content, element_size, child_type)))
            == element_size,
        spec_array_child_type(spec_pod_body(spec_array_pod(content, element_size, child_type)))
            == child_type,
        spec_array_content(spec_pod_body(spec_array_pod(content, element_size, child_type)))
            == content,
{
    let rest = spec_le_u32(element_size) + spec_le_u32(child_type) + content;
    lemma_header((content.len() + ARRAY_BODY_SIZE) as u32, Type::ARRAY, rest);
    crate::spa::pod::restricted::lemma_le_u32(element_size);
    crate::spa::pod::restricted::lemma_le_u32(child_type);
    let pod = spec_array_pod(content, element_size, child_type);
    assert(pod =~= spec_header((content.len() + ARRAY_BODY_SIZE) as u32, Type::ARRAY) + rest);
    let body = spec_pod_body(pod);
    assert(body =~= rest);
    lemma_read_u32(Seq::empty(), element_size, spec_le_u32(child_type) + content);
    assert(Seq::<u8>::empty() + spec_le_u32(element_size) + (spec_le_u32(child_type) + content)
        =~= rest);
    lemma_read_u32(spec_le_u32(element_size), child_type, content);
    assert(spec_array_content(body) =~= content);
}

} // verus!

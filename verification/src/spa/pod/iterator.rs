//! Iterators over the pods of a container body and over the raw elements of arrays,
//! and the builder of pod sequences.
use std::marker::PhantomData;

use vstd::prelude::*;
use vstd::slice::slice_subrange;

use crate::spa::pod::choice::{
    lemma_elements_of_encoding, lemma_encode_all_push, spec_elements, spec_encode_all,
};
use crate::spa::pod::pod_buf::{AllocatedData, PodBuf};
use crate::spa::pod::restricted::{
    lemma_padding, padding_len, read_u32, spec_padding, spec_padding_len, spec_pod_body_size, write_align_padding,
    write_bytes, CloneTo, PodRawValue, SizedPod, WritePod, WriteValue,
};
use crate::spa::pod::{spec_is_pod, PodError, PodRef, PodResult, POD_ALIGN, POD_HEADER_SIZE};

verus! {

/// The pods stored one after the other, each followed by its padding, in `content`.
/// Reading stops at the first pod that does not fit.
pub open spec fn spec_pods(content: Seq<u8>) -> Seq<Seq<u8>>
    decreases content.len(),
{
    if content.len() < POD_HEADER_SIZE {
        Seq::empty()
    } else {
        let size = POD_HEADER_SIZE + spec_pod_body_size(content);
        if size > content.len() {
            Seq::empty()
        } else {
            let next = size + spec_padding_len(size as nat);
            seq![content.subrange(0, size as int)] + if next >= content.len() {
                Seq::empty()
            } else {
                spec_pods(content.subrange(next as int, content.len() as int))
            }
        }
    }
}

/// The pods `pods`, each followed by its padding.
pub open spec fn spec_padded_concat(pods: Seq<Seq<u8>>) -> Seq<u8>
    decreases pods.len(),
{
    if pods.len() == 0 {
        Seq::empty()
    } else {
        spec_padded_concat(pods.drop_last()) + pods.last() + spec_padding(pods.last().len())
    }
}

/// Iterator over the pods stored in a content region, such as the body of a struct.
pub struct PodIterator<'a> {
    content: &'a [u8],
    current: usize,
}

impl<'a> PodIterator<'a> {
    /// The pods that are still to be returned.
    pub closed spec fn spec_remaining(&self) -> Seq<Seq<u8>> {
        if self.current <= self.content@.len() {
            spec_pods(self.content@.subrange(self.current as int, self.content@.len() as int))
        } else {
            Seq::empty()
        }
    }

    /// The content region the iterator walks.
    pub closed spec fn spec_content(&self) -> Seq<u8> {
        self.content@
    }

    /// Iterator over the pods in the first `size` bytes of `content`.
    pub fn new(content: &'a [u8], size: usize) -> (iter: Self)
        requires
            size <= content@.len(),
        ensures
            iter.spec_content() == content@.subrange(0, size as int),
            iter.spec_remaining() == spec_pods(content@.subrange(0, size as int)),
    {
        let content = slice_subrange(content, 0, size);
        let iter = PodIterator { content, current: 0 };
        proof {
            assert(iter.content@.subrange(0, iter.content@.len() as int) =~= iter.content@);
        }
        iter
    }

    /// Starts building a sequence of pods of kind `E`.
    pub fn build<E>() -> (builder: PodIteratorBuilder<E>)
        ensures
            builder@ == Seq::<u8>::empty(),
    {
        PodIteratorBuilder::new()
    }

    /// Size of the content region.
    fn max_offset_bytes(&self) -> (size: usize)
        ensures
            size == self.spec_content().len(),
    {
        self.content.len()
    }

    /// The raw bytes of the content region.
    pub fn as_bytes(&self) -> (bytes: &'a [u8])
        ensures
            bytes@ == self.spec_content(),
    {
        self.content
    }

    /// The next pod, if one is left.
    pub fn next(&mut self) -> (pod: Option<PodRef<'a>>)
        ensures
            final(self).spec_content() == old(self).spec_content(),
            old(self).spec_remaining().len() == 0 ==> pod is None && final(self).spec_remaining()
                == old(self).spec_remaining(),
            old(self).spec_remaining().len() > 0 ==> (pod matches Some(p) && p@ == old(self).spec_remaining()[0]
                && final(self).spec_remaining() == old(self).spec_remaining().drop_first()),
    {
        let max = self.max_offset_bytes();
        if self.current > max {
            return None;
        }
        let ghost rest = self.content@.subrange(self.current as int, max as int);
        if max - self.current < POD_HEADER_SIZE {
            return None;
        }
        let body_size = read_u32(self.content, self.current) as usize;
        proof {
            assert(rest.subrange(0, 4) =~= self.content@.subrange(
                self.current as int,
                self.current + 4,
            ));
        }
        if max - self.current - POD_HEADER_SIZE < body_size {
            return None;
        }
        let size = POD_HEADER_SIZE + body_size;
        let data = slice_subrange(self.content, self.current, self.current + size);
        proof {
            assert(data@ =~= rest.subrange(0, size as int));
            assert(data@.subrange(0, 4) =~= rest.subrange(0, 4));
            lemma_padding(size as nat);
        }
        let pod = PodRef::from_slice_unchecked(data);
        let padding = padding_len(size);
        let after = max - self.current - size;
        let ghost next = size + padding;
        if padding >= after {
            self.current = max;
            proof {
                assert(self.content@.subrange(self.current as int, max as int) =~= Seq::<
                    u8,
                >::empty());
                assert(old(self).spec_remaining() =~= seq![data@]);
            }
        } else {
            self.current = self.current + size + padding;
            proof {
                assert(rest.subrange(next as int, rest.len() as int) =~= self.content@.subrange(
                    self.current as int,
                    max as int,
                ));
                assert(old(self).spec_remaining().drop_first() =~= self.spec_remaining());
            }
        }
        Some(pod)
    }
}

/// Iterator over the raw elements of kind `E` stored in a content region, such as the
/// body of an array.
pub struct PodValueIterator<'a, E> {
    content: &'a [u8],
    element_size: usize,
    current: usize,
    phantom: PhantomData<E>,
}

impl<'a, E: PodRawValue> PodValueIterator<'a, E> {
    /// The elements that are still to be returned.
    pub closed spec fn spec_remaining(&self) -> Seq<E::Value> {
        if self.current <= self.content@.len() {
            spec_elements::<E>(
                self.content@.subrange(self.current as int, self.content@.len() as int),
                self.element_size as nat,
            )
        } else {
            Seq::empty()
        }
    }

    /// The content region the iterator walks.
    pub closed spec fn spec_content(&self) -> Seq<u8> {
        self.content@
    }

    /// Size of each element.
    pub closed spec fn spec_element_size(&self) -> nat {
        self.element_size as nat
    }

    /// Iterator over the elements of size `element_size` in the first `size` bytes of
    /// `content`.
    pub fn new(content: &'a [u8], size: usize, element_size: usize) -> (iter: Self)
        requires
            size <= content@.len(),
        ensures
            iter.spec_content() == content@.subrange(0, size as int),
            iter.spec_element_size() == element_size,
            iter.spec_remaining() == spec_elements::<E>(
                content@.subrange(0, size as int),
                element_size as nat,
            ),
    {
        let content = slice_subrange(content, 0, size);
        let iter = PodValueIterator { content, element_size, current: 0, phantom: PhantomData };
        proof {
            assert(iter.content@.subrange(0, iter.content@.len() as int) =~= iter.content@);
        }
        iter
    }

    /// Size of each element.
    pub fn element_size(&self) -> (size: usize)
        ensures
            size == self.spec_element_size(),
    {
        self.element_size
    }

    /// The raw bytes of the content region.
    pub fn as_bytes(&self) -> (bytes: &'a [u8])
        ensures
            bytes@ == self.spec_content(),
    {
        self.content
    }

    /// The next element, if one is left.
    pub fn next(&mut self) -> (value: Option<E::Value>)
        ensures
            final(self).spec_content() == old(self).spec_content(),
            final(self).spec_element_size() == old(self).spec_element_size(),
            old(self).spec_remaining().len() == 0 ==> value is None && final(self).spec_remaining()
                == old(self).spec_remaining(),
            old(self).spec_remaining().len() > 0 ==> value == Some(
                old(self).spec_remaining()[0],
            ) && final(self).spec_remaining() == old(self).spec_remaining().drop_first(),
    {
        let max = self.content.len();
        let element_size = self.element_size;
        let raw_size = E::raw_size();
        let ghost rest = self.content@.subrange(self.current as int, max as int);
        if self.current > max || element_size == 0 || element_size < raw_size || max
            - self.current < element_size {
            return None;
        }
        let value = E::read_raw_value(self.content, self.current);
        proof {
            assert(rest.subrange(0, raw_size as int) =~= self.content@.subrange(
                self.current as int,
                self.current + raw_size,
            ));
            assert(rest.subrange(element_size as int, rest.len() as int) =~= self.content@.subrange(
                self.current + element_size,
                max as int,
            ));
        }
        self.current = self.current + element_size;
        Some(value)
    }

    /// All the remaining elements.
    pub fn collect_values(&mut self) -> (values: Vec<E::Value>)
        ensures
            values@ == old(self).spec_remaining(),
            final(self).spec_remaining().len() == 0,
    {
        let mut values: Vec<E::Value> = Vec::new();
        loop
            invariant
                values@ + self.spec_remaining() == old(self).spec_remaining(),
            decreases self.spec_remaining().len(),
        {
            let ghost before = self.spec_remaining();
            match self.next() {
                Some(v) => {
                    values.push(v);
                    proof {
                        assert(values@ + self.spec_remaining() =~= old(self).spec_remaining());
                    }
                },
                None => {
                    proof {
                        assert(values@ + before =~= values@);
                    }
                    return values;
                },
            }
        }
    }
}

/// Builder of a sequence of pods of kind `E`, each followed by its padding.
pub struct PodIteratorBuilder<E> {
    buf: Vec<u8>,
    phantom: PhantomData<E>,
}

impl<E> View for PodIteratorBuilder<E> {
    type V = Seq<u8>;

    /// The bytes written so far.
    closed spec fn view(&self) -> Seq<u8> {
        self.buf@
    }
}

impl<E> PodIteratorBuilder<E> {
    /// Creates an empty builder.
    pub fn new() -> (builder: Self)
        ensures
            builder@ == Seq::<u8>::empty(),
    {
        PodIteratorBuilder { buf: Vec::new(), phantom: PhantomData }
    }

    /// Hands the written pods over.
    pub fn into_pod_iter(self) -> (iter: AllocatedPodIterator<E>)
        ensures
            iter@ == self@,
    {
        AllocatedPodIterator { data: PodBuf::from_bytes(self.buf).into_pod() }
    }

    /// Appends a copy of the pod `pod`.
    pub fn push_pod(self, pod: &PodRef) -> (r: PodResult<Self>)
        ensures
            r matches Ok(builder) && builder@ == self@ + pod@ + spec_padding(pod@.len()),
    {
        let mut buf = self.buf;
        pod.clone_to(&mut buf)?;
        Ok(PodIteratorBuilder { buf, phantom: PhantomData })
    }
}

impl<E: WritePod> PodIteratorBuilder<E> {
    /// Appends the pod of kind `E` holding `value`.
    pub fn push_value(self, value: &E::Value) -> (r: PodResult<Self>)
        requires
            E::spec_writable(*value),
        ensures
            self@.len() % (POD_ALIGN as nat) == 0 ==> (r matches Ok(builder) && builder@ == self@
                + E::spec_pod_bytes(*value) + spec_padding(E::spec_pod_bytes(*value).len())),
            self@.len() % (POD_ALIGN as nat) != 0 ==> r == Err::<Self, PodError>(
                PodError::PodIsNotAligned,
            ),
    {
        let mut buf = self.buf;
        E::write_pod(&mut buf, value)?;
        Ok(PodIteratorBuilder { buf, phantom: PhantomData })
    }

    /// A builder holding the pods of kind `E` with the given values.
    pub fn from_values(values: &Vec<E::Value>) -> (r: PodResult<Self>)
        requires
            forall|i: int| 0 <= i < values@.len() ==> E::spec_writable(#[trigger] values@[i]),
        ensures
            r matches Ok(builder) && builder@ == spec_padded_concat(
                values@.map_values(|v: E::Value| E::spec_pod_bytes(v)),
            ),
    {
        let mut builder = Self::new();
        let mut i: usize = 0;
        let ghost pods = values@.map_values(|v: E::Value| E::spec_pod_bytes(v));
        assert(spec_padded_concat(pods.subrange(0, 0)) =~= Seq::<u8>::empty());
        while i < values.len()
            invariant
                i <= values@.len(),
                pods == values@.map_values(|v: E::Value| E::spec_pod_bytes(v)),
                forall|j: int| 0 <= j < values@.len() ==> E::spec_writable(#[trigger] values@[j]),
                builder@ == spec_padded_concat(pods.subrange(0, i as int)),
                builder@.len() % (POD_ALIGN as nat) == 0,
            decreases values@.len() - i,
        {
            let ghost before = builder@;
            builder = builder.push_value(&values[i])?;
            proof {
                assert(pods.subrange(0, i + 1).drop_last() =~= pods.subrange(0, i as int));
                lemma_padding(E::spec_pod_bytes(values@[i as int]).len());
                assert(builder@.len() == before.len() + E::spec_pod_bytes(values@[i as int]).len()
                    + spec_padding_len(E::spec_pod_bytes(values@[i as int]).len()));
                assert((before.len() + (E::spec_pod_bytes(values@[i as int]).len()
                    + spec_padding_len(E::spec_pod_bytes(values@[i as int]).len()))) % 8 == 0)
                    by (nonlinear_arith)
                    requires
                        before.len() % 8 == 0,
                        (E::spec_pod_bytes(values@[i as int]).len() + spec_padding_len(
                            E::spec_pod_bytes(values@[i as int]).len(),
                        )) % 8 == 0,
                ;
            }
            i = i + 1;
        }
        assert(pods.subrange(0, values@.len() as int) =~= pods);
        Ok(builder)
    }
}

/// Allocated sequence of pods of kind `E`.
pub struct AllocatedPodIterator<E> {
    data: AllocatedData<E>,
}

impl<E> View for AllocatedPodIterator<E> {
    type V = Seq<u8>;

    /// The allocated bytes.
    closed spec fn view(&self) -> Seq<u8> {
        self.data@
    }
}

impl<E> AllocatedPodIterator<E> {
    /// Iterator over the allocated pods.
    pub fn iter(&self) -> (iter: PodIterator<'_>)
        ensures
            iter.spec_content() == self@,
            iter.spec_remaining() == spec_pods(self@),
    {
        let bytes = self.data.as_bytes();
        let iter = PodIterator::new(bytes, bytes.len());
        proof {
            assert(bytes@.subrange(0, bytes@.len() as int) =~= bytes@);
        }
        iter
    }
}

impl<E: WritePod> AllocatedPodIterator<E> {
    /// Allocates the pods of kind `E` with the given values.
    pub fn from_values(values: &Vec<E::Value>) -> (r: PodResult<Self>)
        requires
            forall|i: int| 0 <= i < values@.len() ==> E::spec_writable(#[trigger] values@[i]),
        ensures
            r matches Ok(iter) && iter@ == spec_padded_concat(
                values@.map_values(|v: E::Value| E::spec_pod_bytes(v)),
            ),
    {
        Ok(PodIteratorBuilder::<E>::from_values(values)?.into_pod_iter())
    }
}

/// Allocated raw elements of kind `E`, stored one after the other, such as the content
/// of an array.
pub struct AllocatedPodValueIterator<E> {
    data: Vec<u8>,
    phantom: PhantomData<E>,
}

impl<E> View for AllocatedPodValueIterator<E> {
    type V = Seq<u8>;

    /// The allocated bytes.
    closed spec fn view(&self) -> Seq<u8> {
        self.data@
    }
}

impl<E: WriteValue> AllocatedPodValueIterator<E> {
    /// Allocates the raw encoding of `values`.
    pub fn new(values: Vec<E::Value>) -> (r: Self)
        ensures
            r@ == spec_encode_all::<E>(values@),
    {
        let mut data: Vec<u8> = Vec::new();
        let mut i: usize = 0;
        assert(values@.subrange(0, 0) =~= Seq::<E::Value>::empty());
        while i < values.len()
            invariant
                i <= values@.len(),
                data@ == spec_encode_all::<E>(values@.subrange(0, i as int)),
            decreases values@.len() - i,
        {
            E::write_raw_value(&mut data, &values[i]);
            proof {
                lemma_encode_all_push::<E>(values@.subrange(0, i as int), values@[i as int]);
                assert(values@.subrange(0, i as int).push(values@[i as int]) =~= values@.subrange(
                    0,
                    i + 1,
                ));
            }
            i = i + 1;
        }
        assert(values@.subrange(0, values@.len() as int) =~= values@);
        AllocatedPodValueIterator { data, phantom: PhantomData }
    }

    /// Iterator over the allocated elements.
    pub fn iter(&self) -> (iter: PodValueIterator<'_, E>)
        ensures
            iter.spec_content() == self@,
            iter.spec_element_size() == E::spec_raw_size(),
            iter.spec_remaining() == spec_elements::<E>(self@, E::spec_raw_size()),
    {
        let bytes = self.data.as_slice();
        let iter = PodValueIterator::new(bytes, bytes.len(), E::raw_size());
        proof {
            assert(bytes@.subrange(0, bytes@.len() as int) =~= bytes@);
        }
        iter
    }
}

/// The elements of allocated values are the values.
pub proof fn lemma_iterate_allocated_values<E: WriteValue>(values: Seq<E::Value>)
    ensures
        spec_elements::<E>(spec_encode_all::<E>(values), E::spec_raw_size()) == values,
{
    lemma_elements_of_encoding::<E>(values);
}

/// A padded sequence of pods starts with its first pod and that pod's padding.
pub proof fn lemma_padded_concat_front(pods: Seq<Seq<u8>>)
    requires
        pods.len() > 0,
    ensures
        spec_padded_concat(pods) == pods[0] + spec_padding(pods[0].len()) + spec_padded_concat(
            pods.drop_first(),
        ),
    decreases pods.len(),
{
    if pods.len() == 1 {
        assert(pods.drop_last() =~= Seq::<Seq<u8>>::empty());
        assert(pods.drop_first() =~= Seq::<Seq<u8>>::empty());
        assert(spec_padded_concat(pods) =~= pods[0] + spec_padding(pods[0].len())
            + spec_padded_concat(pods.drop_first()));
    } else {
        lemma_padded_concat_front(pods.drop_last());
        assert(pods.drop_last().drop_first() =~= pods.drop_first().drop_last());
        assert(pods.drop_first().last() == pods.last());
        assert(pods.drop_last()[0] == pods[0]);
        assert(spec_padded_concat(pods) =~= pods[0] + spec_padding(pods[0].len())
            + spec_padded_concat(pods.drop_first()));
    }
}

/// A padded sequence of pods has a length that is a multiple of the alignment.
pub proof fn lemma_padded_concat_aligned(pods: Seq<Seq<u8>>)
    ensures
        spec_padded_concat(pods).len() % (POD_ALIGN as nat) == 0,
    decreases pods.len(),
{
    if pods.len() > 0 {
        lemma_padded_concat_aligned(pods.drop_last());
        lemma_padding(pods.last().len());
        let a = spec_padded_concat(pods.drop_last()).len();
        let b = pods.last().len() + spec_padding_len(pods.last().len());
        assert((a + b) % 8 == 0) by (nonlinear_arith)
            requires
                a % 8 == 0,
                b % 8 == 0,
        ;
    }
}

/// Reading a pod followed by its padding and more content gives the pod, then the pods of
/// the remaining content.
pub proof fn lemma_pods_front(pod: Seq<u8>, rest: Seq<u8>)
    requires
        spec_is_pod(pod),
    ensures
        spec_pods(pod + spec_padding(pod.len()) + rest) == seq![pod] + spec_pods(rest),
{
    let content = pod + spec_padding(pod.len()) + rest;
    assert(content.subrange(0, 4) =~= pod.subrange(0, 4));
    assert(content.subrange(0, pod.len() as int) =~= pod);
    lemma_padding(pod.len());
    let next = pod.len() + spec_padding_len(pod.len());
    if next >= content.len() {
        assert(rest.len() == 0);
        assert(spec_pods(rest) =~= Seq::<Seq<u8>>::empty());
        assert(spec_pods(content) =~= seq![pod] + spec_pods(rest));
    } else {
        assert(content.subrange(next as int, content.len() as int) =~= rest);
    }
}

/// Iterating over a padded sequence of pods gives the pods back, in order.
pub proof fn lemma_pods_of_padded_concat(pods: Seq<Seq<u8>>)
    requires
        forall|i: int| 0 <= i < pods.len() ==> spec_is_pod(#[trigger] pods[i]),
    ensures
        spec_pods(spec_padded_concat(pods)) == pods,
    decreases pods.len(),
{
    if pods.len() == 0 {
        assert(spec_pods(spec_padded_concat(pods)) =~= pods);
    } else {
        lemma_padded_concat_front(pods);
        assert(spec_is_pod(pods[0]));
        lemma_pods_front(pods[0], spec_padded_concat(pods.drop_first()));
        assert(forall|i: int|
            0 <= i < pods.drop_first().len() ==> pods.drop_first()[i] == pods[i + 1]);
        lemma_pods_of_padded_concat(pods.drop_first());
        assert(seq![pods[0]] + pods.drop_first() =~= pods);
    }
}

/// The pods built from values of kind `E` are returned by the iterator, in order.
pub proof fn lemma_iterate_built_values<E: WritePod>(values: Seq<E::Value>)
    requires
        forall|i: int| 0 <= i < values.len() ==> E::spec_writable(#[trigger] values[i]),
    ensures
        spec_pods(spec_padded_concat(values.map_values(|v: E::Value| E::spec_pod_bytes(v))))
            == values.map_values(|v: E::Value| E::spec_pod_bytes(v)),
{
    let pods = values.map_values(|v: E::Value| E::spec_pod_bytes(v));
    assert forall|i: int| 0 <= i < pods.len() implies spec_is_pod(#[trigger] pods[i]) by {
        E::lemma_pod_bytes(values[i]);
    }
    lemma_pods_of_padded_concat(pods);
}

/// Offset of the `k`-th pod of `pods` where the pods are stored one after the other, each
/// followed by its padding: the first is at zero, and each next one after the previous
/// pod and its padding.
pub open spec fn spec_pod_offset(pods: Seq<Seq<u8>>, k: int) -> int
    decreases k,
{
    if k <= 0 {
        0
    } else {
        spec_pod_offset(pods, k - 1) + pods[k - 1].len() + spec_padding_len(pods[k - 1].len())
    }
}

/// Offsets of the pods after a first pod `a` are shifted by `a` and its padding.
proof fn lemma_pod_offset_front(a: Seq<u8>, pods: Seq<Seq<u8>>, k: int)
    requires
        1 <= k <= pods.len() + 1,
    ensures
        spec_pod_offset(seq![a] + pods, k) == a.len() + spec_padding_len(a.len())
            + spec_pod_offset(pods, k - 1),
    decreases k,
{
    let all = seq![a] + pods;
    assert(spec_pod_offset(all, 0) == 0);
    assert(spec_pod_offset(pods, 0) == 0);
    if k > 1 {
        lemma_pod_offset_front(a, pods, k - 1);
        assert(all[k - 1] == pods[k - 2]);
        assert(spec_pod_offset(all, k) == spec_pod_offset(all, k - 1) + all[k - 1].len()
            + spec_padding_len(all[k - 1].len()));
        assert(spec_pod_offset(pods, k - 1) == spec_pod_offset(pods, k - 2) + pods[k - 2].len()
            + spec_padding_len(pods[k - 2].len()));
    } else {
        assert(all[0] == a);
        assert(spec_pod_offset(all, 1) == spec_pod_offset(all, 0) + all[0].len()
            + spec_padding_len(all[0].len()));
    }
}

/// The `k`-th pod of `pods` is the part of `content` at its offset: it starts at a multiple
/// of the alignment, holds at least a header and ends within `content`.
pub open spec fn spec_pod_placed(content: Seq<u8>, pods: Seq<Seq<u8>>, k: int) -> bool {
    let o = spec_pod_offset(pods, k);
    let pod = pods[k];
    &&& o % (POD_ALIGN as int) == 0
    &&& pod.len() >= POD_HEADER_SIZE
    &&& 0 <= o
    &&& o + pod.len() <= content.len()
    &&& content.subrange(o, o + pod.len()) == pod
}

/// A pod placed in the rest of the content after an aligned first part is placed in the
/// whole content, after the first pod.
proof fn lemma_pod_placed_shift(
    content: Seq<u8>,
    first: Seq<u8>,
    tail: Seq<Seq<u8>>,
    k: int,
)
    requires
        1 <= k <= tail.len(),
        first.len() + spec_padding_len(first.len()) <= content.len(),
        (first.len() + spec_padding_len(first.len())) % (POD_ALIGN as nat) == 0,
        spec_pod_placed(
            content.subrange(
                (first.len() + spec_padding_len(first.len())) as int,
                content.len() as int,
            ),
            tail,
            k - 1,
        ),
    ensures
        spec_pod_placed(content, seq![first] + tail, k),
{
    let next = first.len() + spec_padding_len(first.len());
    let rest = content.subrange(next as int, content.len() as int);
    let pods = seq![first] + tail;
    lemma_pod_offset_front(first, tail, k);
    assert(pods[k] == tail[k - 1]);
    let o1 = spec_pod_offset(tail, k - 1);
    let o = spec_pod_offset(pods, k);
    assert(o % 8 == 0) by (nonlinear_arith)
        requires
            o == next + o1,
            next % 8 == 0,
            o1 % 8 == 0,
    ;
    assert(content.subrange(o, o + pods[k].len()) =~= rest.subrange(o1, o1 + pods[k].len()));
}

/// Every pod that the iterator returns from `content` is the part of `content` at its
/// offset: it starts at a multiple of the alignment, holds at least a header and ends
/// within `content`; the first starts at zero and each next one after the previous pod and
/// its padding.
pub proof fn lemma_pod_offsets(content: Seq<u8>)
    ensures
        forall|k: int|
            0 <= k < spec_pods(content).len() ==> #[trigger] spec_pod_placed(
                content,
                spec_pods(content),
                k,
            ),
    decreases content.len(),
{
    let pods = spec_pods(content);
    if content.len() >= POD_HEADER_SIZE {
        let size = POD_HEADER_SIZE + spec_pod_body_size(content);
        if size <= content.len() {
            let first = content.subrange(0, size as int);
            let next = size + spec_padding_len(size as nat);
            lemma_padding(size as nat);
            assert(spec_pod_offset(pods, 0) == 0);
            if next < content.len() {
                let rest = content.subrange(next as int, content.len() as int);
                lemma_pod_offsets(rest);
                let tail = spec_pods(rest);
                assert(pods == seq![first] + tail);
                assert forall|k: int| 0 <= k < pods.len() implies #[trigger] spec_pod_placed(
                    content,
                    pods,
                    k,
                ) by {
                    if k == 0 {
                        assert(pods[0] == first);
                        assert(content.subrange(0, first.len() as int) =~= first);
                    } else {
                        assert(spec_pod_placed(rest, tail, k - 1));
                        lemma_pod_placed_shift(content, first, tail, k);
                    }
                }
            } else {
                assert(pods =~= seq![first]);
                assert(pods[0] == first);
                assert(content.subrange(0, first.len() as int) =~= first);
            }
        }
    }
}

/// Reading elements of size `element_size` from `content` gives as many elements as whole
/// elements fit, and the `i`-th element is decoded from the bytes at `i * element_size`;
/// the bytes that do not make a whole element are left out.
pub proof fn lemma_elements_count<E: PodRawValue>(content: Seq<u8>, element_size: nat)
    requires
        element_size > 0,
        element_size >= E::spec_raw_size(),
    ensures
        spec_elements::<E>(content, element_size).len() == content.len() / element_size,
        forall|i: int|
            0 <= i < spec_elements::<E>(content, element_size).len() ==> #[trigger] spec_elements::<
                E,
            >(content, element_size)[i] == E::spec_decode(
                content.subrange(i * element_size, i * element_size + E::spec_raw_size()),
            ),
    decreases content.len(),
{
    let es = element_size;
    let len = content.len();
    if len < es {
        assert(len / es == 0) by (nonlinear_arith)
            requires
                len < es,
                es > 0,
        ;
    } else {
        let rest = content.subrange(es as int, len as int);
        lemma_elements_count::<E>(rest, es);
        assert((len - es) as nat / es + 1 == len / es) by (nonlinear_arith)
            requires
                len >= es,
                es > 0,
        ;
        let elems = spec_elements::<E>(content, es);
        let tail = spec_elements::<E>(rest, es);
        assert forall|i: int| 0 <= i < elems.len() implies #[trigger] elems[i] == E::spec_decode(
            content.subrange(i * es, i * es + E::spec_raw_size()),
        ) by {
            if i > 0 {
                assert(elems[i] == tail[i - 1]);
                assert((i - 1) * es + es == i * es) by (nonlinear_arith);
                assert(i * es + E::spec_raw_size() <= len) by (nonlinear_arith)
                    requires
                        i < len / es,
                        E::spec_raw_size() <= es,
                        es > 0,
                        i >= 0,
                ;
                assert(rest.subrange((i - 1) * es, (i - 1) * es + E::spec_raw_size())
                    =~= content.subrange(i * es, i * es + E::spec_raw_size()));
            } else {
                assert(i * es == 0) by (nonlinear_arith)
                    requires
                        i == 0,
                ;
            }
        }
    }
}

/// A builder holding the pods `pods` holds the pods `pods` and `pod` after `pod` is
/// pushed, and iterating the built sequence gives them back in push order.
pub proof fn lemma_builder_push(pods: Seq<Seq<u8>>, pod: Seq<u8>)
    requires
        forall|i: int| 0 <= i < pods.len() ==> spec_is_pod(#[trigger] pods[i]),
        spec_is_pod(pod),
    ensures
        spec_padded_concat(pods) + pod + spec_padding(pod.len()) == spec_padded_concat(
            pods.push(pod),
        ),
        spec_pods(spec_padded_concat(pods.push(pod))) == pods.push(pod),
{
    assert(pods.push(pod).drop_last() =~= pods);
    assert forall|i: int| 0 <= i < pods.push(pod).len() implies spec_is_pod(
        #[trigger] pods.push(pod)[i],
    ) by {
        if i < pods.len() {
            assert(pods.push(pod)[i] == pods[i]);
        }
    }
    lemma_pods_of_padded_concat(pods.push(pod));
}

} // verus!

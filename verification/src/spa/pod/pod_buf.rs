//! Buffers that pods are written to, and the allocated pods they produce.
use std::marker::PhantomData;

use vstd::prelude::*;

use vstd::bytes::u32_to_le_bytes;

use crate::spa::pod::restricted::{lemma_le_u32, spec_le_u32, spec_padding, WritePod};
use crate::spa::pod::{spec_pod_from_bytes, PodError, PodRef, PodResult};

verus! {

/// Growable buffer that pods of kind `T` are written to.
pub struct PodBuf<T> {
    data: Vec<u8>,
    phantom: PhantomData<T>,
}

impl<T> View for PodBuf<T> {
    type V = Seq<u8>;

    /// The bytes written so far.
    closed spec fn view(&self) -> Seq<u8> {
        self.data@
    }
}

impl<T> PodBuf<T> {
    /// Creates an empty buffer.
    pub fn new() -> (buf: Self)
        ensures
            buf@ == Seq::<u8>::empty(),
    {
        PodBuf { data: Vec::new(), phantom: PhantomData }
    }

    /// A buffer holding `data`.
    pub(crate) fn from_bytes(data: Vec<u8>) -> (buf: Self)
        ensures
            buf@ == data@,
    {
        PodBuf { data, phantom: PhantomData }
    }

    /// Hands the written bytes over as allocated data.
    pub fn into_pod(self) -> (data: AllocatedData<T>)
        ensures
            data@ == self@,
    {
        AllocatedData { data: self.data, phantom: PhantomData }
    }
}

impl<T: WritePod> PodBuf<T> {
    /// A buffer holding the pod of kind `T` with the given value, followed by the padding.
    pub fn from_value(value: &T::Value) -> (r: PodResult<Self>)
        requires
            T::spec_writable(*value),
        ensures
            r matches Ok(buf) && buf@ == T::spec_pod_bytes(*value) + spec_padding(
                T::spec_pod_bytes(*value).len(),
            ),
    {
        let mut data: Vec<u8> = Vec::new();
        T::write_pod(&mut data, value)?;
        proof {
            assert(data@ =~= T::spec_pod_bytes(*value) + spec_padding(
                T::spec_pod_bytes(*value).len(),
            ));
        }
        Ok(PodBuf { data, phantom: PhantomData })
    }
}

/// Allocated pod data of kind `T`: a pod, or a sequence of pods, with their padding.
pub struct AllocatedData<T> {
    data: Vec<u8>,
    phantom: PhantomData<T>,
}

impl<T> View for AllocatedData<T> {
    type V = Seq<u8>;

    /// The allocated bytes.
    closed spec fn view(&self) -> Seq<u8> {
        self.data@
    }
}

impl<T> AllocatedData<T> {
    /// The allocated bytes.
    pub fn as_bytes(&self) -> (bytes: &[u8])
        ensures
            bytes@ == self@,
    {
        self.data.as_slice()
    }

    /// Number of allocated bytes.
    pub fn size(&self) -> (size: usize)
        ensures
            size == self@.len(),
    {
        self.data.len()
    }

    /// The pod at the start of the data.
    pub fn as_pod(&self) -> (pod: PodRef<'_>)
        requires
            spec_pod_from_bytes(self@) is Ok,
        ensures
            spec_pod_from_bytes(self@) == Ok::<Seq<u8>, PodError>(pod@),
    {
        match PodRef::from_bytes(self.data.as_slice()) {
            Ok(pod) => pod,
            Err(_) => vstd::pervasive::unreached(),
        }
    }
}

impl<T> AllocatedData<T> {
    /// Overwrite the 32-bit word at `at` with `value`.
    pub(crate) fn set_u32(&mut self, at: usize, value: u32)
        requires
            at + 4 <= old(self)@.len(),
        ensures
            final(self)@ == old(self)@.subrange(0, at as int) + spec_le_u32(value) + old(
                self,
            )@.subrange(at + 4, old(self)@.len() as int),
    {
        let bytes = u32_to_le_bytes(value);
        proof {
            lemma_le_u32(value);
        }
        let len = self.data.len();
        let mut i: usize = 0;
        while i < 4
            invariant
                i <= 4,
                len == old(self)@.len(),
                at + 4 <= old(self)@.len(),
                bytes@ == spec_le_u32(value),
                bytes@.len() == 4,
                self.data@.len() == old(self)@.len(),
                forall|j: int| 0 <= j < at ==> self.data@[j] == old(self)@[j],
                forall|j: int| at + 4 <= j < old(self)@.len() ==> self.data@[j] == old(self)@[j],
                forall|j: int| at <= j < at + i ==> self.data@[j] == bytes@[j - at],
                forall|j: int| at + i <= j < at + 4 ==> self.data@[j] == old(self)@[j],
            decreases 4 - i,
        {
            self.data.set(at + i, bytes[i]);
            i = i + 1;
        }
        assert(self.data@ =~= old(self)@.subrange(0, at as int) + spec_le_u32(value) + old(
            self,
        )@.subrange(at + 4, old(self)@.len() as int));
    }
}

impl<T: WritePod> AllocatedData<T> {
    /// Allocates the pod of kind `T` with the given value.
    pub fn from_value(value: &T::Value) -> (r: PodResult<Self>)
        requires
            T::spec_writable(*value),
        ensures
            r matches Ok(data) && data@ == T::spec_pod_bytes(*value) + spec_padding(
                T::spec_pod_bytes(*value).len(),
            ),
    {
        Ok(PodBuf::<T>::from_value(value)?.into_pod())
    }
}

} // verus!

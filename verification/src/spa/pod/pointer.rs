//! Pointer pods: the type of the pointed-to data and its address.
use vstd::prelude::*;

use crate::spa::pod::restricted::{read_u32, read_u64, spec_read_u32, spec_read_u64, PodValue};
use crate::spa::pod::{spec_pod_body, PodRef, PodResult};

verus! {

/// Size of the pointer body: type, padding and the 64-bit address.
pub const POINTER_BODY_SIZE: usize = 16;

/// Kind of the pointer pods. The value is the address held by the pod.
pub struct PodPointerRef;

impl PodValue for PodPointerRef {
    type Value = u64;
}

impl PodPointerRef {
    /// Type of the data the pointer pod `pod` points to.
    /// The body must hold the pointer body.
    pub fn pointer_type(pod: &PodRef) -> (t: u32)
        requires
            spec_pod_body(pod@).len() >= POINTER_BODY_SIZE,
        ensures
            t == spec_read_u32(spec_pod_body(pod@), 0),
    {
        let body = pod.body();
        let t = read_u32(body, 0);
        proof {
            assert(body@.subrange(0, 4) =~= spec_pod_body(pod@).subrange(0, 4));
        }
        t
    }

    /// The address held by the pointer pod `pod`.
    /// The body must hold the pointer body.
    pub fn value(pod: &PodRef) -> (r: PodResult<u64>)
        requires
            spec_pod_body(pod@).len() >= POINTER_BODY_SIZE,
        ensures
            r == Ok::<u64, crate::spa::pod::PodError>(spec_read_u64(spec_pod_body(pod@), 8)),
    {
        let body = pod.body();
        let v = read_u64(body, 8);
        proof {
            assert(body@.subrange(8, 16) =~= spec_pod_body(pod@).subrange(8, 16));
        }
        Ok(v)
    }
}

} // verus!

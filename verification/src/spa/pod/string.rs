//! String pods: a NUL-terminated byte string.
use vstd::prelude::*;
use vstd::slice::slice_subrange;

use crate::spa::pod::restricted::{
    lemma_header, lemma_padding_shift, spec_header, spec_padding, write_align_padding,
    write_bytes, write_header, PodValue, WritePod,
};
use crate::spa::pod::{
    spec_is_pod, spec_pod_body, FromValue, PodError, PodRef, PodResult, POD_ALIGN,
};
use crate::spa::type_::Type;

verus! {

/// Kind of the string pods. The value is the string without its NUL terminator.
pub struct PodStringRef;

impl PodValue for PodStringRef {
    type Value = Vec<u8>;
}

/// Whether `s` holds no NUL byte.
pub open spec fn spec_no_nul(s: Seq<u8>) -> bool {
    forall|i: int| 0 <= i < s.len() ==> s[i] != 0
}

/// Whether `s` is the string stored at the start of `body`: the bytes before the first NUL.
pub open spec fn spec_c_string_of(body: Seq<u8>, s: Seq<u8>) -> bool {
    &&& s.len() < body.len()
    &&& s == body.subrange(0, s.len() as int)
    &&& body[s.len() as int] == 0
    &&& spec_no_nul(s)
}

/// The string pod holding `s` and its NUL terminator, without padding.
pub open spec fn spec_string_pod(s: Seq<u8>) -> Seq<u8> {
    spec_header((s.len() + 1) as u32, Type::STRING) + s.push(0u8)
}

impl PodStringRef {
    /// The string held by the string pod `pod`: the bytes of the body before the first NUL.
    /// The body must end with a NUL byte.
    pub fn value<'a>(pod: &PodRef<'a>) -> (r: PodResult<&'a [u8]>)
        requires
            spec_pod_body(pod@).len() > 0,
        ensures
            spec_pod_body(pod@).last() != 0 ==> r == Err::<&'a [u8], PodError>(
                PodError::StringIsNotNullTerminated,
            ),
            spec_pod_body(pod@).last() == 0 ==> (r matches Ok(s) && spec_c_string_of(
                spec_pod_body(pod@),
                s@,
            )),
    {
        let body = pod.body();
        let len = body.len();
        if body[len - 1] != 0 {
            return Err(PodError::StringIsNotNullTerminated);
        }
        let mut i: usize = 0;
        while body[i] != 0
            invariant
                i < len,
                len == body@.len(),
                body@[len - 1] == 0,
                forall|j: int| 0 <= j < i ==> body@[j] != 0,
            decreases len - i,
        {
            i = i + 1;
        }
        let s = slice_subrange(body, 0, i);
        Ok(s)
    }
}

impl WritePod for PodStringRef {
    open spec fn spec_writable(value: Vec<u8>) -> bool {
        value@.len() < u32::MAX && spec_no_nul(value@)
    }

    open spec fn spec_pod_bytes(value: Vec<u8>) -> Seq<u8> {
        spec_string_pod(value@)
    }

    proof fn lemma_pod_bytes(value: Vec<u8>) {
        lemma_header((value@.len() + 1) as u32, Type::STRING, value@.push(0u8));
    }

    fn write_pod(buffer: &mut Vec<u8>, value: &Vec<u8>) -> PodResult<()> {
        write_string_pod(buffer, value.as_slice())
    }
}

/// Write the string pod holding `s` and its NUL terminator, followed by the padding.
pub fn write_string_pod(buffer: &mut Vec<u8>, s: &[u8]) -> (r: PodResult<()>)
    requires
        s@.len() < u32::MAX,
    ensures
        old(buffer)@.len() % (POD_ALIGN as nat) == 0 ==> r == Ok::<(), PodError>(())
            && final(buffer)@ == old(buffer)@ + spec_string_pod(s@) + spec_padding(
            spec_string_pod(s@).len(),
        ),
        old(buffer)@.len() % (POD_ALIGN as nat) != 0 ==> r == Err::<(), PodError>(
            PodError::PodIsNotAligned,
        ) && final(buffer)@ == old(buffer)@,
{
    let ghost start = buffer@;
    write_header(buffer, (s.len() + 1) as u32, Type::STRING)?;
    write_bytes(buffer, s);
    buffer.push(0u8);
    proof {
        lemma_header((s@.len() + 1) as u32, Type::STRING, s@.push(0u8));
        assert(buffer@ =~= start + spec_string_pod(s@));
    }
    write_align_padding(buffer)?;
    proof {
        lemma_padding_shift(spec_string_pod(s@).len(), start.len());
    }
    Ok(())
}

impl FromValue for PodStringRef {

}

/// Reading a written string pod gives the string back.
pub proof fn lemma_string_roundtrip(s: Seq<u8>)
    requires
        s.len() < u32::MAX,
        spec_no_nul(s),
    ensures
        spec_is_pod(spec_string_pod(s)),
        crate::spa::pod::restricted::spec_pod_type(spec_string_pod(s)) == Type::STRING,
        spec_pod_body(spec_string_pod(s)).len() > 0,
        spec_pod_body(spec_string_pod(s)).last() == 0,
        spec_c_string_of(spec_pod_body(spec_string_pod(s)), s),
        forall|t: Seq<u8>| spec_c_string_of(spec_pod_body(spec_string_pod(s)), t) ==> t == s,
{
    lemma_header((s.len() + 1) as u32, Type::STRING, s.push(0u8));
    let body = spec_pod_body(spec_string_pod(s));
    assert(body =~= s.push(0u8));
    assert(s =~= body.subrange(0, s.len() as int));
    assert forall|t: Seq<u8>| spec_c_string_of(body, t) implies t == s by {
        if t.len() < s.len() {
            assert(body[t.len() as int] == s[t.len() as int]);
        } else if t.len() > s.len() {
            assert(t[s.len() as int] == body[s.len() as int]);
        }
        assert(t =~= s);
    }
}

} // verus!

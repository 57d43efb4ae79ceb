//! Low-level encoding of pods: little-endian words, headers, alignment padding,
//! and the traits that connect the pod kinds to their byte encoding.
use vstd::bytes::{
    lemma_auto_spec_u32_to_from_le_bytes, lemma_auto_spec_u64_to_from_le_bytes,
    spec_u32_from_le_bytes, spec_u32_to_le_bytes, spec_u64_from_le_bytes, spec_u64_to_le_bytes,
    u32_from_le_bytes, u32_to_le_bytes, u64_from_le_bytes, u64_to_le_bytes,
};
use vstd::prelude::*;
use vstd::slice::slice_subrange;

use crate::spa::pod::{PodError, PodResult, POD_ALIGN};

verus! {

/// Little-endian encoding of a 32-bit word.
pub open spec fn spec_le_u32(v: u32) -> Seq<u8> {
    spec_u32_to_le_bytes(v)
}

/// Little-endian encoding of a 64-bit word.
pub open spec fn spec_le_u64(v: u64) -> Seq<u8> {
    spec_u64_to_le_bytes(v)
}

/// The 32-bit word stored at `at` in `s`.
pub open spec fn spec_read_u32(s: Seq<u8>, at: int) -> u32 {
    spec_u32_from_le_bytes(s.subrange(at, at + 4))
}

/// The 64-bit word stored at `at` in `s`.
pub open spec fn spec_read_u64(s: Seq<u8>, at: int) -> u64 {
    spec_u64_from_le_bytes(s.subrange(at, at + 8))
}

/// Number of zero bytes that follow `len` bytes so that the next pod starts aligned.
pub open spec fn spec_padding_len(len: nat) -> nat {
    if len % (POD_ALIGN as nat) == 0 {
        0
    } else {
        (POD_ALIGN as nat - len % (POD_ALIGN as nat)) as nat
    }
}

/// The zero padding that follows `len` bytes.
pub open spec fn spec_padding(len: nat) -> Seq<u8> {
    Seq::new(spec_padding_len(len), |i: int| 0u8)
}

/// A pod header: body size followed by the type identifier.
pub open spec fn spec_header(size: u32, type_: u32) -> Seq<u8> {
    spec_le_u32(size) + spec_le_u32(type_)
}

/// Body size recorded in the header of the pod `pod`.
pub open spec fn spec_pod_body_size(pod: Seq<u8>) -> u32 {
    spec_read_u32(pod, 0)
}

/// Type identifier recorded in the header of the pod `pod`.
pub open spec fn spec_pod_type(pod: Seq<u8>) -> u32 {
    spec_read_u32(pod, 4)
}

pub proof fn lemma_le_u32(v: u32)
    ensures
        spec_le_u32(v).len() == 4,
        spec_u32_from_le_bytes(spec_le_u32(v)) == v,
{
    lemma_auto_spec_u32_to_from_le_bytes();
    assert(spec_u32_to_le_bytes(v).len() == 4);
}

pub proof fn lemma_le_u64(v: u64)
    ensures
        spec_le_u64(v).len() == 8,
        spec_u64_from_le_bytes(spec_le_u64(v)) == v,
{
    lemma_auto_spec_u64_to_from_le_bytes();
    assert(spec_u64_to_le_bytes(v).len() == 8);
}

/// A word written at position `a.len()` is read back from there.
pub proof fn lemma_read_u32(a: Seq<u8>, v: u32, b: Seq<u8>)
    ensures
        spec_read_u32(a + spec_le_u32(v) + b, a.len() as int) == v,
{
    lemma_le_u32(v);
    assert((a + spec_le_u32(v) + b).subrange(a.len() as int, a.len() + 4 as int) =~= spec_le_u32(v));
}

/// A 64-bit word written at position `a.len()` is read back from there.
pub proof fn lemma_read_u64(a: Seq<u8>, v: u64, b: Seq<u8>)
    ensures
        spec_read_u64(a + spec_le_u64(v) + b, a.len() as int) == v,
{
    lemma_le_u64(v);
    assert((a + spec_le_u64(v) + b).subrange(a.len() as int, a.len() + 8 as int) =~= spec_le_u64(v));
}

/// The header fields are read back from a pod that starts with a header.
pub proof fn lemma_header(size: u32, type_: u32, rest: Seq<u8>)
    ensures
        spec_header(size, type_).len() == 8,
        spec_pod_body_size(spec_header(size, type_) + rest) == size,
        spec_pod_type(spec_header(size, type_) + rest) == type_,
{
    lemma_le_u32(size);
    lemma_le_u32(type_);
    lemma_read_u32(Seq::empty(), size, spec_le_u32(type_) + rest);
    assert(Seq::<u8>::empty() + spec_le_u32(size) + (spec_le_u32(type_) + rest) =~= spec_header(
        size,
        type_,
    ) + rest);
    lemma_read_u32(spec_le_u32(size), type_, rest);
}

/// After the padding, the length is a multiple of the alignment.
pub proof fn lemma_padding(len: nat)
    ensures
        (len + spec_padding_len(len)) % (POD_ALIGN as nat) == 0,
        spec_padding_len(len) < POD_ALIGN,
        spec_padding(len).len() == spec_padding_len(len),
{
}

/// Padding only depends on the length modulo the alignment.
pub proof fn lemma_padding_shift(len: nat, k: nat)
    requires
        k % (POD_ALIGN as nat) == 0,
    ensures
        spec_padding_len(len + k) == spec_padding_len(len),
        spec_padding(len + k) == spec_padding(len),
{
    assert((len + k) % 8 == len % 8) by (nonlinear_arith)
        requires
            k % 8 == 0,
    ;
    assert(spec_padding(len + k) =~= spec_padding(len));
}

/// The 32-bit word stored at `at` in `bytes`.
pub fn read_u32(bytes: &[u8], at: usize) -> (v: u32)
    requires
        at + 4 <= bytes@.len(),
    ensures
        v == spec_read_u32(bytes@, at as int),
{
    let _len = bytes.len();
    u32_from_le_bytes(slice_subrange(bytes, at, at + 4))
}

/// The 64-bit word stored at `at` in `bytes`.
pub fn read_u64(bytes: &[u8], at: usize) -> (v: u64)
    requires
        at + 8 <= bytes@.len(),
    ensures
        v == spec_read_u64(bytes@, at as int),
{
    let _len = bytes.len();
    u64_from_le_bytes(slice_subrange(bytes, at, at + 8))
}

/// Overwrite the `n` bytes of `bytes` at `at` with `value`, which holds `n` bytes.
pub(crate) fn overwrite_at(bytes: &mut [u8], at: usize, value: &[u8], n: usize)
    requires
        n == value@.len(),
        at + n <= old(bytes)@.len(),
        at + n <= usize::MAX,
    ensures
        final(bytes)@ == old(bytes)@.subrange(0, at as int) + value@ + old(bytes)@.subrange(
            at + n,
            old(bytes)@.len() as int,
        ),
    no_unwind
{
    let mut i: usize = 0;
    while i < n
        invariant
            i <= n,
            n == value@.len(),
            at + n <= old(bytes)@.len(),
            at + n <= usize::MAX,
            bytes@.len() == old(bytes)@.len(),
            forall|j: int| 0 <= j < at ==> bytes@[j] == old(bytes)@[j],
            forall|j: int| at + n <= j < old(bytes)@.len() ==> bytes@[j] == old(bytes)@[j],
            forall|j: int| at <= j < at + i ==> bytes@[j] == value@[j - at],
        decreases n - i,
    {
        bytes[at + i] = value[i];
        i = i + 1;
    }
    assert(bytes@ =~= old(bytes)@.subrange(0, at as int) + value@ + old(bytes)@.subrange(
        at + n,
        old(bytes)@.len() as int,
    ));
}

/// Write a 32-bit word to the `buffer`.
pub fn write_value(buffer: &mut Vec<u8>, value: u32)
    ensures
        final(buffer)@ == old(buffer)@ + spec_le_u32(value),
{
    let mut bytes = u32_to_le_bytes(value);
    buffer.append(&mut bytes);
}

/// Write a 64-bit word to the `buffer`.
pub fn write_value_u64(buffer: &mut Vec<u8>, value: u64)
    ensures
        final(buffer)@ == old(buffer)@ + spec_le_u64(value),
{
    let mut bytes = u64_to_le_bytes(value);
    buffer.append(&mut bytes);
}

/// Write raw bytes to the `buffer`.
pub fn write_bytes(buffer: &mut Vec<u8>, bytes: &[u8])
    ensures
        final(buffer)@ == old(buffer)@ + bytes@,
{
    let ghost start = buffer@;
    let mut i: usize = 0;
    while i < bytes.len()
        invariant
            i <= bytes@.len(),
            buffer@ == start + bytes@.subrange(0, i as int),
        decreases bytes@.len() - i,
    {
        buffer.push(bytes[i]);
        i = i + 1;
        assert(buffer@ =~= start + bytes@.subrange(0, i as int));
    }
    assert(bytes@.subrange(0, bytes@.len() as int) =~= bytes@);
}

/// Number of padding bytes that follow `len` bytes.
pub fn padding_len(len: usize) -> (n: usize)
    ensures
        n == spec_padding_len(len as nat),
{
    let rem = len % POD_ALIGN;
    if rem == 0 {
        0
    } else {
        POD_ALIGN - rem
    }
}

/// Write `n` zero bytes to the `buffer`.
pub fn write_zeros(buffer: &mut Vec<u8>, n: usize)
    ensures
        final(buffer)@ == old(buffer)@ + Seq::new(n as nat, |i: int| 0u8),
{
    let ghost start = buffer@;
    let mut i: usize = 0;
    while i < n
        invariant
            i <= n,
            buffer@ == start + Seq::new(i as nat, |j: int| 0u8),
        decreases n - i,
    {
        buffer.push(0u8);
        i = i + 1;
        assert(buffer@ =~= start + Seq::new(i as nat, |j: int| 0u8));
    }
}

/// Check whether `buffer` position is properly aligned.
pub fn check_align(buffer: &Vec<u8>) -> (r: PodResult<()>)
    ensures
        buffer@.len() % (POD_ALIGN as nat) == 0 ==> r == Ok::<(), PodError>(()),
        buffer@.len() % (POD_ALIGN as nat) != 0 ==> r == Err::<(), PodError>(
            PodError::PodIsNotAligned,
        ),
{
    if buffer.len() % POD_ALIGN == 0 {
        Ok(())
    } else {
        Err(PodError::PodIsNotAligned)
    }
}

/// Write a pod header with the given values.
/// Align is checked before writing to be sure that `buffer` position is properly aligned.
pub fn write_header(buffer: &mut Vec<u8>, size: u32, type_: u32) -> (r: PodResult<()>)
    ensures
        old(buffer)@.len() % (POD_ALIGN as nat) == 0 ==> r == Ok::<(), PodError>(())
            && final(buffer)@ == old(buffer)@ + spec_header(size, type_),
        old(buffer)@.len() % (POD_ALIGN as nat) != 0 ==> r == Err::<(), PodError>(
            PodError::PodIsNotAligned,
        ) && final(buffer)@ == old(buffer)@,
{
    check_align(buffer)?;
    let ghost start = buffer@;
    write_value(buffer, size);
    write_value(buffer, type_);
    assert(buffer@ =~= start + spec_header(size, type_));
    Ok(())
}

/// Write the padding if it's required.
/// Should be used after each pod write for safety.
pub fn write_align_padding(buffer: &mut Vec<u8>) -> (r: PodResult<()>)
    ensures
        r == Ok::<(), PodError>(()),
        final(buffer)@ == old(buffer)@ + spec_padding(old(buffer)@.len()),
        final(buffer)@.len() % (POD_ALIGN as nat) == 0,
{
    let ghost start = buffer@;
    let rem = buffer.len() % POD_ALIGN;
    if rem > 0 {
        let padding_len = POD_ALIGN - rem;
        let mut i: usize = 0;
        while i < padding_len
            invariant
                i <= padding_len,
                padding_len == spec_padding_len(start.len()),
                buffer@ == start + Seq::new(i as nat, |j: int| 0u8),
            decreases padding_len - i,
        {
            buffer.push(0u8);
            i = i + 1;
            assert(buffer@ =~= start + Seq::new(i as nat, |j: int| 0u8));
        }
    }
    assert(buffer@ =~= start + spec_padding(start.len()));
    Ok(())
}

/// Count the difference between `buffer` lengths before and after usage in `func`.
pub fn write_count_size<F>(buffer: &mut Vec<u8>, func: F) -> (r: PodResult<usize>)
    where
        F: FnOnce(&mut Vec<u8>) -> PodResult<()>,
    requires
        forall|b: &mut Vec<u8>| func.requires((b,)),
    ensures
        r matches Ok(n) ==> n == vstd::wrapping::usize_specs::wrapping_sub(
            final(buffer)@.len() as usize,
            old(buffer)@.len() as usize,
        ),
        r matches Ok(n) ==> (final(buffer)@.len() >= old(buffer)@.len() ==> n == final(buffer)@.len()
            - old(buffer)@.len()),
        exists|b: &mut Vec<u8>, res: PodResult<()>|
            {
                &&& *b == *old(buffer)
                &&& *final(b) == *final(buffer)
                &&& #[trigger] call_ensures(func, (b,), res)
                &&& (res matches Err(e) ==> r == Err::<usize, PodError>(e))
                &&& (res is Ok ==> r is Ok)
            },
{
    let start_pos = buffer.len();
    let ghost start = *buffer;
    let res = func(buffer);
    match res {
        Ok(()) => {},
        Err(e) => {
            assert(exists|b: &mut Vec<u8>| *b == start && *final(b) == *buffer && call_ensures(func, (b,), res));
            return Err(e);
        },
    }
    let end_pos = buffer.len();
    assert(exists|b: &mut Vec<u8>| *b == start && *final(b) == *buffer && call_ensures(func, (b,), res));
    Ok(end_pos.wrapping_sub(start_pos))
}

} // verus!

verus! {

/// Pod with known size.
pub trait SizedPod {
    /// Pod size including header, as seen by the specification.
    spec fn spec_pod_size(&self) -> nat;

    /// Pod size including header.
    fn pod_size(&self) -> (size: usize)
        ensures
            size == self.spec_pod_size(),
    ;
}

/// Marker trait for kinds with a value that can be sent by value, not by reference.
pub trait PrimitiveValue {

}

/// Pods that can be copied into a buffer.
pub trait CloneTo {
    /// The bytes of the pod: header and body.
    spec fn spec_pod_bytes(&self) -> Seq<u8>;

    /// Write this pod as bytes into the `buffer`, followed by the alignment padding.
    fn clone_to(&self, buffer: &mut Vec<u8>) -> (r: PodResult<()>)
        ensures
            r == Ok::<(), PodError>(()),
            final(buffer)@ == old(buffer)@ + self.spec_pod_bytes() + spec_padding(
                self.spec_pod_bytes().len(),
            ),
    ;
}

/// A kind of pod; `Value` is the Rust type of its value.
pub trait PodValue: Sized {
    type Value;
}

/// A kind of pod whose value has a fixed-size raw encoding.
/// Such values are the elements of arrays and choices.
pub trait PodRawValue: PodValue {
    /// Type identifier of the pods of this kind.
    spec fn spec_static_type() -> u32;

    /// Size of the raw value.
    spec fn spec_raw_size() -> nat;

    /// The raw size is at most 8 bytes, and the type is not the choice type.
    proof fn lemma_kind()
        ensures
            Self::spec_raw_size() <= 8,
            Self::spec_static_type() != crate::spa::type_::Type::CHOICE,
    ;

    /// The value stored in `raw`, which holds [Self::spec_raw_size] bytes.
    spec fn spec_decode(raw: Seq<u8>) -> Self::Value;

    /// Type identifier of the pods of this kind.
    fn static_type() -> (t: u32)
        ensures
            t == Self::spec_static_type(),
    ;

    /// Size of the raw value.
    fn raw_size() -> (n: usize)
        ensures
            n == Self::spec_raw_size(),
            n <= 8,
    ;

    /// Read the raw value stored at `offset` in `bytes`.
    fn read_raw_value(bytes: &[u8], offset: usize) -> (v: Self::Value)
        requires
            offset + Self::spec_raw_size() <= bytes@.len(),
        ensures
            v == Self::spec_decode(bytes@.subrange(offset as int, offset + Self::spec_raw_size())),
    ;

    /// Parse the value from the `size` bytes at `offset` in `bytes`.
    fn parse_raw_value(bytes: &[u8], offset: usize, size: usize) -> (r: PodResult<Self::Value>)
        requires
            offset + size <= bytes@.len(),
        ensures
            size < Self::spec_raw_size() ==> r == Err::<Self::Value, PodError>(
                PodError::DataIsTooShort(Self::spec_raw_size() as usize, size),
            ),
            size >= Self::spec_raw_size() ==> r == Ok::<Self::Value, PodError>(
                Self::spec_decode(bytes@.subrange(offset as int, offset + Self::spec_raw_size())),
            ),
    {
        let raw_size = Self::raw_size();
        if size < raw_size {
            Err(PodError::DataIsTooShort(raw_size, size))
        } else {
            Ok(Self::read_raw_value(bytes, offset))
        }
    }
}

/// A kind of pod whose value can be written in raw form.
pub trait WriteValue: PodRawValue {
    /// The raw encoding of `value`.
    spec fn spec_encode(value: Self::Value) -> Seq<u8>;

    /// The raw encoding has the raw size, and decoding it gives the value back.
    proof fn lemma_encode(value: Self::Value)
        ensures
            Self::spec_encode(value).len() == Self::spec_raw_size(),
            Self::spec_decode(Self::spec_encode(value)) == value,
            4 <= Self::spec_raw_size() <= 8,
    ;

    /// Write the raw encoding of `value` to the `buffer`.
    fn write_raw_value(buffer: &mut Vec<u8>, value: &Self::Value)
        ensures
            final(buffer)@ == old(buffer)@ + Self::spec_encode(*value),
    ;
}

/// A kind of pod that can be written as a whole pod.
pub trait WritePod: PodValue {
    /// Whether `value` can be written: its size fits the header.
    spec fn spec_writable(value: Self::Value) -> bool;

    /// The pod holding `value`: header and body, without padding.
    spec fn spec_pod_bytes(value: Self::Value) -> Seq<u8>;

    /// The written bytes form one pod.
    proof fn lemma_pod_bytes(value: Self::Value)
        requires
            Self::spec_writable(value),
        ensures
            crate::spa::pod::spec_is_pod(Self::spec_pod_bytes(value)),
    ;

    /// Write the pod holding `value` to the `buffer`, followed by the alignment padding.
    /// The `buffer` must be aligned.
    fn write_pod(buffer: &mut Vec<u8>, value: &Self::Value) -> (r: PodResult<()>)
        requires
            Self::spec_writable(*value),
        ensures
            old(buffer)@.len() % (POD_ALIGN as nat) == 0 ==> r == Ok::<(), PodError>(())
                && final(buffer)@ == old(buffer)@ + Self::spec_pod_bytes(*value) + spec_padding(
                Self::spec_pod_bytes(*value).len(),
            ),
            old(buffer)@.len() % (POD_ALIGN as nat) != 0 ==> r == Err::<(), PodError>(
                PodError::PodIsNotAligned,
            ) && final(buffer)@ == old(buffer)@,
    ;
}

} // verus!

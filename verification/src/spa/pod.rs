//! Pods: the self-describing binary values of SPA.
//!
//! A pod is a header (body size and type, two 32-bit words) followed by the body.
//! Consecutive pods are aligned to 8 bytes with zero padding.
pub mod array;
pub mod basic;
pub mod bytes;
pub mod choice;
pub mod control;
pub mod id;
pub mod iterator;
pub mod message;
pub mod object;
pub mod pod_buf;
pub mod pointer;
pub mod restricted;
pub mod sequence;
pub mod string;
pub mod struct_;

use vstd::bytes::{spec_u32_from_le_bytes, spec_u64_from_le_bytes};
use vstd::prelude::*;
use vstd::slice::slice_subrange;

use crate::spa::pod::pod_buf::{AllocatedData, PodBuf};
use crate::spa::pod::restricted::{
    lemma_le_u32, lemma_le_u64, lemma_read_u32, read_u32, read_u64, spec_header, spec_le_u32,
    spec_le_u64, spec_padding, spec_pod_body_size, spec_pod_type, spec_read_u32, spec_read_u64, write_align_padding,
    write_header, write_value, write_value_u64, write_bytes, write_zeros, padding_len, CloneTo, SizedPod, PodRawValue, PodValue, PrimitiveValue, WritePod,
    WriteValue,
};
use crate::spa::type_::{FractionRef, RectangleRef, Type};


verus! {

/// Errors of parsing and writing pods.
#[derive(Debug, Clone, Copy, PartialEq, Eq, Structural)]
pub enum PodError {
    /// Expected size, actual size.
    DataIsTooShort(usize, usize),
    UnknownPodTypeToDowncast,
    /// Cast type, actual type.
    WrongPodTypeToCast(u32, u32),
    StringIsNotNullTerminated,
    IndexIsOutOfRange,
    ChoiceElementMissing,
    UnexpectedChoiceElement,
    /// Expected size, actual size.
    UnexpectedChoiceElementSize(usize, usize),
    UnsupportedChoiceElementType,
    UnexpectedControlType(u32),
    UnexpectedObjectType(u32),
    /// Expected choice type, actual choice type.
    UnexpectedChoiceType(u32, u32),
    PodIsNotAligned,
}

pub type PodResult<T> = Result<T, PodError>;

/// Alignment of pods in memory.
pub const POD_ALIGN: usize = 8;

/// Size of a pod header.
pub const POD_HEADER_SIZE: usize = 8;

/// A pod in memory: the header and the body, without the trailing padding.
#[derive(Debug, Clone, Copy)]
pub struct PodRef<'a> {
    data: &'a [u8],
}

impl<'a> View for PodRef<'a> {
    type V = Seq<u8>;

    /// The bytes of the pod: header and body.
    closed spec fn view(&self) -> Seq<u8> {
        self.data@
    }
}

/// Whether `pod` is exactly one pod: a header followed by a body of the recorded size.
pub open spec fn spec_is_pod(pod: Seq<u8>) -> bool {
    pod.len() >= POD_HEADER_SIZE && pod.len() == POD_HEADER_SIZE + spec_pod_body_size(pod)
}

/// The body of the pod `pod`.
pub open spec fn spec_pod_body(pod: Seq<u8>) -> Seq<u8> {
    pod.subrange(POD_HEADER_SIZE as int, pod.len() as int)
}

/// `n` as a `usize`, or `usize::MAX` when it does not fit.
pub open spec fn spec_saturating_usize(n: int) -> usize {
    if n > usize::MAX {
        usize::MAX
    } else {
        n as usize
    }
}

/// Outcome of reading the pod that starts `bytes`.
pub open spec fn spec_pod_from_bytes(bytes: Seq<u8>) -> PodResult<Seq<u8>> {
    if bytes.len() < POD_HEADER_SIZE {
        Err(PodError::DataIsTooShort(POD_HEADER_SIZE as usize, bytes.len() as usize))
    } else if bytes.len() < POD_HEADER_SIZE + spec_pod_body_size(bytes) {
        Err(
            PodError::DataIsTooShort(
                spec_saturating_usize(POD_HEADER_SIZE + spec_pod_body_size(bytes)),
                bytes.len() as usize,
            ),
        )
    } else {
        Ok(bytes.subrange(0, POD_HEADER_SIZE + spec_pod_body_size(bytes)))
    }
}

impl<'a> PodRef<'a> {
    #[verifier::type_invariant]
    closed spec fn wf(&self) -> bool {
        spec_is_pod(self.data@)
    }

    /// The pod that starts `bytes`; trailing bytes are ignored.
    pub fn from_bytes(bytes: &'a [u8]) -> (r: PodResult<PodRef<'a>>)
        ensures
            spec_pod_from_bytes(bytes@) matches Ok(p) ==> r matches Ok(pod) && pod@ == p,
            spec_pod_from_bytes(bytes@) matches Err(e) ==> r == Err::<PodRef<'a>, PodError>(e),
    {
        if bytes.len() < POD_HEADER_SIZE {
            return Err(PodError::DataIsTooShort(POD_HEADER_SIZE, bytes.len()));
        }
        let size = read_u32(bytes, 0) as usize;
        if bytes.len() - POD_HEADER_SIZE < size {
            return Err(PodError::DataIsTooShort(POD_HEADER_SIZE.saturating_add(size), bytes.len()));
        }
        let data = slice_subrange(bytes, 0, POD_HEADER_SIZE + size);
        proof {
            assert(data@.subrange(0, 4) =~= bytes@.subrange(0, 4));
        }
        Ok(PodRef { data })
    }

    /// The pod made of `data`, which must be exactly one pod.
    pub(crate) fn from_slice_unchecked(data: &'a [u8]) -> (pod: PodRef<'a>)
        requires
            spec_is_pod(data@),
        ensures
            pod@ == data@,
    {
        PodRef { data }
    }

    /// The bytes of the pod: header and body.
    pub fn as_bytes(&self) -> (bytes: &'a [u8])
        ensures
            bytes@ == self@,
            spec_is_pod(bytes@),
    {
        proof {
            use_type_invariant(self);
        }
        self.data
    }

    /// Body size recorded in the header.
    pub fn size(&self) -> (size: u32)
        ensures
            size == spec_pod_body_size(self@),
            spec_is_pod(self@),
    {
        proof {
            use_type_invariant(self);
        }
        read_u32(self.data, 0)
    }

    /// Type identifier recorded in the header.
    pub fn type_(&self) -> (t: u32)
        ensures
            t == spec_pod_type(self@),
            spec_is_pod(self@),
    {
        proof {
            use_type_invariant(self);
        }
        read_u32(self.data, 4)
    }

    /// Same as [Self::type_].
    pub fn pod_type(&self) -> (t: u32)
        ensures
            t == spec_pod_type(self@),
    {
        self.type_()
    }

    /// Pod size including header.
    pub fn pod_size(&self) -> (size: usize)
        ensures
            size == self@.len(),
            spec_is_pod(self@),
            size == POD_HEADER_SIZE + spec_pod_body_size(self@),
    {
        proof {
            use_type_invariant(self);
        }
        self.data.len()
    }

    /// The body of the pod.
    pub fn body(&self) -> (body: &'a [u8])
        ensures
            body@ == spec_pod_body(self@),
            body@.len() == spec_pod_body_size(self@),
    {
        proof {
            use_type_invariant(self);
        }
        slice_subrange(self.data, POD_HEADER_SIZE, self.data.len())
    }
}

/// Whether a pod of type `pod_type` can be viewed as a pod of type `target_type`:
/// any pod is a generic pod, and a primitive pod can stand where a choice is expected.
pub open spec fn spec_can_cast(target_type: u32, pod_type: u32) -> bool {
    ||| target_type == Type::POD
    ||| target_type == pod_type
    ||| (target_type == Type::CHOICE && (pod_type == Type::BOOL || pod_type == Type::ID
        || pod_type == Type::INT || pod_type == Type::LONG || pod_type == Type::FLOAT
        || pod_type == Type::DOUBLE || pod_type == Type::RECTANGLE || pod_type == Type::FRACTION))
}

/// Whether `t` is the type of one of the basic pod kinds.
pub open spec fn spec_is_basic_type(t: u32) -> bool {
    Type::NONE <= t <= Type::POD
}

/// A pod together with its kind, as found by [PodRef::downcast].
#[derive(Debug, Clone, Copy)]
pub enum BasicType<'a> {
    NONE,
    BOOL(PodRef<'a>),
    ID(PodRef<'a>),
    INT(PodRef<'a>),
    LONG(PodRef<'a>),
    FLOAT(PodRef<'a>),
    DOUBLE(PodRef<'a>),
    STRING(PodRef<'a>),
    BYTES(PodRef<'a>),
    RECTANGLE(PodRef<'a>),
    FRACTION(PodRef<'a>),
    BITMAP(PodRef<'a>),
    ARRAY(PodRef<'a>),
    STRUCT(PodRef<'a>),
    OBJECT(PodRef<'a>),
    SEQUENCE(PodRef<'a>),
    POINTER(PodRef<'a>),
    FD(PodRef<'a>),
    CHOICE(PodRef<'a>),
    POD(PodRef<'a>),
}

impl<'a> BasicType<'a> {
    /// The type identifier of the kind.
    pub open spec fn spec_type(&self) -> u32 {
        match *self {
            BasicType::NONE => Type::NONE,
            BasicType::BOOL(_) => Type::BOOL,
            BasicType::ID(_) => Type::ID,
            BasicType::INT(_) => Type::INT,
            BasicType::LONG(_) => Type::LONG,
            BasicType::FLOAT(_) => Type::FLOAT,
            BasicType::DOUBLE(_) => Type::DOUBLE,
            BasicType::STRING(_) => Type::STRING,
            BasicType::BYTES(_) => Type::BYTES,
            BasicType::RECTANGLE(_) => Type::RECTANGLE,
            BasicType::FRACTION(_) => Type::FRACTION,
            BasicType::BITMAP(_) => Type::BITMAP,
            BasicType::ARRAY(_) => Type::ARRAY,
            BasicType::STRUCT(_) => Type::STRUCT,
            BasicType::OBJECT(_) => Type::OBJECT,
            BasicType::SEQUENCE(_) => Type::SEQUENCE,
            BasicType::POINTER(_) => Type::POINTER,
            BasicType::FD(_) => Type::FD,
            BasicType::CHOICE(_) => Type::CHOICE,
            BasicType::POD(_) => Type::POD,
        }
    }

    /// The bytes of the pod, for the kinds that hold one.
    pub open spec fn spec_pod(&self) -> Option<Seq<u8>> {
        match *self {
            BasicType::NONE => None,
            BasicType::BOOL(p) => Some(p@),
            BasicType::ID(p) => Some(p@),
            BasicType::INT(p) => Some(p@),
            BasicType::LONG(p) => Some(p@),
            BasicType::FLOAT(p) => Some(p@),
            BasicType::DOUBLE(p) => Some(p@),
            BasicType::STRING(p) => Some(p@),
            BasicType::BYTES(p) => Some(p@),
            BasicType::RECTANGLE(p) => Some(p@),
            BasicType::FRACTION(p) => Some(p@),
            BasicType::BITMAP(p) => Some(p@),
            BasicType::ARRAY(p) => Some(p@),
            BasicType::STRUCT(p) => Some(p@),
            BasicType::OBJECT(p) => Some(p@),
            BasicType::SEQUENCE(p) => Some(p@),
            BasicType::POINTER(p) => Some(p@),
            BasicType::FD(p) => Some(p@),
            BasicType::CHOICE(p) => Some(p@),
            BasicType::POD(p) => Some(p@),
        }
    }
}

impl<'a> PodRef<'a> {
    /// This pod viewed as a pod of type `target_type`.
    pub fn cast(&self, target_type: u32) -> (r: PodResult<PodRef<'a>>)
        ensures
            spec_can_cast(target_type, spec_pod_type(self@)) ==> r == Ok::<PodRef<'a>, PodError>(
                *self,
            ),
            !spec_can_cast(target_type, spec_pod_type(self@)) ==> r == Err::<PodRef<'a>, PodError>(
                PodError::WrongPodTypeToCast(target_type, spec_pod_type(self@)),
            ),
    {
        let pod_type = self.type_();
        if target_type == Type::POD || target_type == pod_type {
            Ok(*self)
        } else if target_type == Type::CHOICE && (pod_type == Type::BOOL || pod_type == Type::ID
            || pod_type == Type::INT || pod_type == Type::LONG || pod_type == Type::FLOAT
            || pod_type == Type::DOUBLE || pod_type == Type::RECTANGLE || pod_type
            == Type::FRACTION) {
            Ok(*self)
        } else {
            Err(PodError::WrongPodTypeToCast(target_type, pod_type))
        }
    }

    /// This pod together with the kind its type names.
    pub fn downcast(&self) -> (r: PodResult<BasicType<'a>>)
        ensures
            spec_pod_type(self@) == Type::NONE ==> r == Ok::<BasicType<'a>, PodError>(
                BasicType::NONE,
            ),
            spec_is_basic_type(spec_pod_type(self@)) && spec_pod_type(self@) != Type::NONE ==> (
            r matches Ok(b) && b.spec_type() == spec_pod_type(self@) && b.spec_pod() == Some(
                self@,
            )),
            !spec_is_basic_type(spec_pod_type(self@)) ==> r == Err::<BasicType<'a>, PodError>(
                PodError::UnknownPodTypeToDowncast,
            ),
    {
        let t = self.type_();
        if t == Type::NONE {
            Ok(BasicType::NONE)
        } else if t == Type::BOOL {
            Ok(BasicType::BOOL(*self))
        } else if t == Type::ID {
            Ok(BasicType::ID(*self))
        } else if t == Type::INT {
            Ok(BasicType::INT(*self))
        } else if t == Type::LONG {
            Ok(BasicType::LONG(*self))
        } else if t == Type::FLOAT {
            Ok(BasicType::FLOAT(*self))
        } else if t == Type::DOUBLE {
            Ok(BasicType::DOUBLE(*self))
        } else if t == Type::STRING {
            Ok(BasicType::STRING(*self))
        } else if t == Type::BYTES {
            Ok(BasicType::BYTES(*self))
        } else if t == Type::RECTANGLE {
            Ok(BasicType::RECTANGLE(*self))
        } else if t == Type::FRACTION {
            Ok(BasicType::FRACTION(*self))
        } else if t == Type::BITMAP {
            Ok(BasicType::BITMAP(*self))
        } else if t == Type::ARRAY {
            Ok(BasicType::ARRAY(*self))
        } else if t == Type::STRUCT {
            Ok(BasicType::STRUCT(*self))
        } else if t == Type::OBJECT {
            Ok(BasicType::OBJECT(*self))
        } else if t == Type::SEQUENCE {
            Ok(BasicType::SEQUENCE(*self))
        } else if t == Type::POINTER {
            Ok(BasicType::POINTER(*self))
        } else if t == Type::FD {
            Ok(BasicType::FD(*self))
        } else if t == Type::CHOICE {
            Ok(BasicType::CHOICE(*self))
        } else if t == Type::POD {
            Ok(BasicType::POD(*self))
        } else {
            Err(PodError::UnknownPodTypeToDowncast)
        }
    }
}

/// The pod holding the primitive `value` of kind `K`: header and raw value.
pub open spec fn spec_primitive_pod<K: WriteValue>(value: K::Value) -> Seq<u8> {
    spec_header(K::spec_raw_size() as u32, K::spec_static_type()) + K::spec_encode(value)
}

/// Value of the primitive pod `pod` of kind `K`.
pub open spec fn spec_primitive_value<K: PodRawValue>(pod: Seq<u8>) -> PodResult<K::Value> {
    if spec_pod_body_size(pod) < K::spec_raw_size() {
        Err(PodError::DataIsTooShort(K::spec_raw_size() as usize, spec_pod_body_size(pod) as usize))
    } else {
        Ok(K::spec_decode(pod.subrange(POD_HEADER_SIZE as int, POD_HEADER_SIZE + K::spec_raw_size())))
    }
}

/// Write the primitive pod holding `value` of kind `K`, followed by the padding.
pub fn write_primitive_pod<K: WriteValue>(buffer: &mut Vec<u8>, value: &K::Value) -> (r: PodResult<
    (),
>)
    ensures
        old(buffer)@.len() % (POD_ALIGN as nat) == 0 ==> r == Ok::<(), PodError>(())
            && final(buffer)@ == old(buffer)@ + spec_primitive_pod::<K>(*value) + spec_padding(
            spec_primitive_pod::<K>(*value).len(),
        ),
        old(buffer)@.len() % (POD_ALIGN as nat) != 0 ==> r == Err::<(), PodError>(
            PodError::PodIsNotAligned,
        ) && final(buffer)@ == old(buffer)@,
{
    let ghost start = buffer@;
    let raw_size = K::raw_size();
    write_header(buffer, raw_size as u32, K::static_type())?;
    K::write_raw_value(buffer, value);
    proof {
        K::lemma_encode(*value);
        assert(buffer@ =~= start + spec_primitive_pod::<K>(*value));
        crate::spa::pod::restricted::lemma_header(
            raw_size as u32,
            K::spec_static_type(),
            Seq::empty(),
        );
    }
    let ghost written = buffer@;
    write_align_padding(buffer)?;
    proof {
        assert(written.len() == start.len() + spec_primitive_pod::<K>(*value).len());
        crate::spa::pod::restricted::lemma_padding_shift(
            spec_primitive_pod::<K>(*value).len(),
            start.len(),
        );
    }
    Ok(())
}

/// Value of the primitive pod `pod` of kind `K`.
pub fn primitive_value<K: PodRawValue>(pod: &PodRef) -> (r: PodResult<K::Value>)
    ensures
        r == spec_primitive_value::<K>(pod@),
{
    let body = pod.body();
    let size = pod.size();
    let r = K::parse_raw_value(body, 0, body.len());
    proof {
        if size >= K::spec_raw_size() {
            assert(body@.subrange(0, K::spec_raw_size() as int) =~= pod@.subrange(
                POD_HEADER_SIZE as int,
                POD_HEADER_SIZE + K::spec_raw_size(),
            ));
        }
    }
    r
}

impl<'a> PodValue for PodRef<'a> {
    type Value = ();
}

/// A generic pod as a raw element: any element stands for one, and it carries no value,
/// so nothing of it has to be read.
impl<'a> PodRawValue for PodRef<'a> {
    open spec fn spec_static_type() -> u32 {
        Type::POD
    }

    open spec fn spec_raw_size() -> nat {
        0
    }

    proof fn lemma_kind() {
    }

    open spec fn spec_decode(raw: Seq<u8>) -> () {
        ()
    }

    fn static_type() -> u32 {
        Type::POD
    }

    fn raw_size() -> usize {
        0
    }

    fn read_raw_value(bytes: &[u8], offset: usize) -> () {
        ()
    }
}

/// Kind of the boolean pods.
pub struct PodBoolRef;

/// Kind of the 32-bit integer pods.
pub struct PodIntRef;

/// Kind of the 64-bit integer pods.
pub struct PodLongRef;

/// Kind of the single precision float pods; the value is the IEEE-754 bit pattern.
pub struct PodFloatRef;

/// Kind of the double precision float pods; the value is the IEEE-754 bit pattern.
pub struct PodDoubleRef;

/// Kind of the rectangle pods.
pub struct PodRectangleRef;

/// Kind of the fraction pods.
pub struct PodFractionRef;

/// Kind of the file descriptor pods.
pub struct PodFdRef;

impl PodValue for PodBoolRef {
    type Value = bool;
}

impl PodRawValue for PodBoolRef {
    open spec fn spec_static_type() -> u32 {
        Type::BOOL
    }

    open spec fn spec_raw_size() -> nat {
        4
    }

    proof fn lemma_kind() {
    }

    open spec fn spec_decode(raw: Seq<u8>) -> bool {
        spec_u32_from_le_bytes(raw) != 0
    }

    fn static_type() -> u32 {
        Type::BOOL
    }

    fn raw_size() -> usize {
        4
    }

    fn read_raw_value(bytes: &[u8], offset: usize) -> bool {
        read_u32(bytes, offset) != 0
    }
}

impl WriteValue for PodBoolRef {
    open spec fn spec_encode(value: bool) -> Seq<u8> {
        spec_le_u32(
            if value {
                1
            } else {
                0
            },
        )
    }

    proof fn lemma_encode(value: bool) {
        lemma_le_u32(
            if value {
                1
            } else {
                0
            },
        );
    }

    fn write_raw_value(buffer: &mut Vec<u8>, value: &bool) {
        write_value(
            buffer,
            if *value {
                1
            } else {
                0
            },
        );
    }
}

impl PodValue for PodIntRef {
    type Value = i32;
}

impl PodRawValue for PodIntRef {
    open spec fn spec_static_type() -> u32 {
        Type::INT
    }

    open spec fn spec_raw_size() -> nat {
        4
    }

    proof fn lemma_kind() {
    }

    open spec fn spec_decode(raw: Seq<u8>) -> i32 {
        spec_u32_from_le_bytes(raw) as i32
    }

    fn static_type() -> u32 {
        Type::INT
    }

    fn raw_size() -> usize {
        4
    }

    fn read_raw_value(bytes: &[u8], offset: usize) -> i32 {
        read_u32(bytes, offset) as i32
    }
}

impl WriteValue for PodIntRef {
    open spec fn spec_encode(value: i32) -> Seq<u8> {
        spec_le_u32(value as u32)
    }

    proof fn lemma_encode(value: i32) {
        lemma_le_u32(value as u32);
        assert((value as u32) as i32 == value) by (bit_vector);
    }

    fn write_raw_value(buffer: &mut Vec<u8>, value: &i32) {
        write_value(buffer, *value as u32);
    }
}

impl PodValue for PodLongRef {
    type Value = i64;
}

impl PodRawValue for PodLongRef {
    open spec fn spec_static_type() -> u32 {
        Type::LONG
    }

    open spec fn spec_raw_size() -> nat {
        8
    }

    proof fn lemma_kind() {
    }

    open spec fn spec_decode(raw: Seq<u8>) -> i64 {
        spec_u64_from_le_bytes(raw) as i64
    }

    fn static_type() -> u32 {
        Type::LONG
    }

    fn raw_size() -> usize {
        8
    }

    fn read_raw_value(bytes: &[u8], offset: usize) -> i64 {
        read_u64(bytes, offset) as i64
    }
}

impl WriteValue for PodLongRef {
    open spec fn spec_encode(value: i64) -> Seq<u8> {
        spec_le_u64(value as u64)
    }

    proof fn lemma_encode(value: i64) {
        lemma_le_u64(value as u64);
        assert((value as u64) as i64 == value) by (bit_vector);
    }

    fn write_raw_value(buffer: &mut Vec<u8>, value: &i64) {
        write_value_u64(buffer, *value as u64);
    }
}

impl PodValue for PodFloatRef {
    type Value = u32;
}

impl PodRawValue for PodFloatRef {
    open spec fn spec_static_type() -> u32 {
        Type::FLOAT
    }

    open spec fn spec_raw_size() -> nat {
        4
    }

    proof fn lemma_kind() {
    }

    open spec fn spec_decode(raw: Seq<u8>) -> u32 {
        spec_u32_from_le_bytes(raw)
    }

    fn static_type() -> u32 {
        Type::FLOAT
    }

    fn raw_size() -> usize {
        4
    }

    fn read_raw_value(bytes: &[u8], offset: usize) -> u32 {
        read_u32(bytes, offset)
    }
}

impl WriteValue for PodFloatRef {
    open spec fn spec_encode(value: u32) -> Seq<u8> {
        spec_le_u32(value)
    }

    proof fn lemma_encode(value: u32) {
        lemma_le_u32(value);
    }

    fn write_raw_value(buffer: &mut Vec<u8>, value: &u32) {
        write_value(buffer, *value);
    }
}

impl PodValue for PodDoubleRef {
    type Value = u64;
}

impl PodRawValue for PodDoubleRef {
    open spec fn spec_static_type() -> u32 {
        Type::DOUBLE
    }

    open spec fn spec_raw_size() -> nat {
        8
    }

    proof fn lemma_kind() {
    }

    open spec fn spec_decode(raw: Seq<u8>) -> u64 {
        spec_u64_from_le_bytes(raw)
    }

    fn static_type() -> u32 {
        Type::DOUBLE
    }

    fn raw_size() -> usize {
        8
    }

    fn read_raw_value(bytes: &[u8], offset: usize) -> u64 {
        read_u64(bytes, offset)
    }
}

impl WriteValue for PodDoubleRef {
    open spec fn spec_encode(value: u64) -> Seq<u8> {
        spec_le_u64(value)
    }

    proof fn lemma_encode(value: u64) {
        lemma_le_u64(value);
    }

    fn write_raw_value(buffer: &mut Vec<u8>, value: &u64) {
        write_value_u64(buffer, *value);
    }
}

impl PodValue for PodRectangleRef {
    type Value = RectangleRef;
}

impl PodRawValue for PodRectangleRef {
    open spec fn spec_static_type() -> u32 {
        Type::RECTANGLE
    }

    open spec fn spec_raw_size() -> nat {
        8
    }

    proof fn lemma_kind() {
    }

    open spec fn spec_decode(raw: Seq<u8>) -> RectangleRef {
        RectangleRef { width: spec_read_u32(raw, 0), height: spec_read_u32(raw, 4) }
    }

    fn static_type() -> u32 {
        Type::RECTANGLE
    }

    fn raw_size() -> usize {
        8
    }

    fn read_raw_value(bytes: &[u8], offset: usize) -> RectangleRef {
        let _len = bytes.len();
        let width = read_u32(bytes, offset);
        let height = read_u32(bytes, offset + 4);
        proof {
            let raw = bytes@.subrange(offset as int, offset + 8);
            assert(raw.subrange(0, 4) =~= bytes@.subrange(offset as int, offset + 4));
            assert(raw.subrange(4, 8) =~= bytes@.subrange(offset + 4, offset + 8));
        }
        RectangleRef { width, height }
    }
}

impl WriteValue for PodRectangleRef {
    open spec fn spec_encode(value: RectangleRef) -> Seq<u8> {
        spec_le_u32(value.width) + spec_le_u32(value.height)
    }

    proof fn lemma_encode(value: RectangleRef) {
        lemma_le_u32(value.width);
        lemma_le_u32(value.height);
        lemma_read_u32(Seq::empty(), value.width, spec_le_u32(value.height));
        lemma_read_u32(spec_le_u32(value.width), value.height, Seq::empty());
        assert(Seq::<u8>::empty() + spec_le_u32(value.width) + spec_le_u32(value.height)
            =~= Self::spec_encode(value));
        assert(spec_le_u32(value.width) + spec_le_u32(value.height) + Seq::<u8>::empty()
            =~= Self::spec_encode(value));
    }

    fn write_raw_value(buffer: &mut Vec<u8>, value: &RectangleRef) {
        let ghost start = buffer@;
        write_value(buffer, value.width);
        write_value(buffer, value.height);
        assert(buffer@ =~= start + Self::spec_encode(*value));
    }
}

impl PodValue for PodFractionRef {
    type Value = FractionRef;
}

impl PodRawValue for PodFractionRef {
    open spec fn spec_static_type() -> u32 {
        Type::FRACTION
    }

    open spec fn spec_raw_size() -> nat {
        8
    }

    proof fn lemma_kind() {
    }

    open spec fn spec_decode(raw: Seq<u8>) -> FractionRef {
        FractionRef { num: spec_read_u32(raw, 0), denom: spec_read_u32(raw, 4) }
    }

    fn static_type() -> u32 {
        Type::FRACTION
    }

    fn raw_size() -> usize {
        8
    }

    fn read_raw_value(bytes: &[u8], offset: usize) -> FractionRef {
        let _len = bytes.len();
        let num = read_u32(bytes, offset);
        let denom = read_u32(bytes, offset + 4);
        proof {
            let raw = bytes@.subrange(offset as int, offset + 8);
            assert(raw.subrange(0, 4) =~= bytes@.subrange(offset as int, offset + 4));
            assert(raw.subrange(4, 8) =~= bytes@.subrange(offset + 4, offset + 8));
        }
        FractionRef { num, denom }
    }
}

impl WriteValue for PodFractionRef {
    open spec fn spec_encode(value: FractionRef) -> Seq<u8> {
        spec_le_u32(value.num) + spec_le_u32(value.denom)
    }

    proof fn lemma_encode(value: FractionRef) {
        lemma_le_u32(value.num);
        lemma_le_u32(value.denom);
        lemma_read_u32(Seq::empty(), value.num, spec_le_u32(value.denom));
        lemma_read_u32(spec_le_u32(value.num), value.denom, Seq::empty());
        assert(Seq::<u8>::empty() + spec_le_u32(value.num) + spec_le_u32(value.denom)
            =~= Self::spec_encode(value));
        assert(spec_le_u32(value.num) + spec_le_u32(value.denom) + Seq::<u8>::empty()
            =~= Self::spec_encode(value));
    }

    fn write_raw_value(buffer: &mut Vec<u8>, value: &FractionRef) {
        let ghost start = buffer@;
        write_value(buffer, value.num);
        write_value(buffer, value.denom);
        assert(buffer@ =~= start + Self::spec_encode(*value));
    }
}

impl PodValue for PodFdRef {
    type Value = i32;
}

impl PodRawValue for PodFdRef {
    open spec fn spec_static_type() -> u32 {
        Type::FD
    }

    open spec fn spec_raw_size() -> nat {
        8
    }

    proof fn lemma_kind() {
    }

    /// The descriptor is stored in 64 bits; its low 32 bits are the descriptor.
    open spec fn spec_decode(raw: Seq<u8>) -> i32 {
        (spec_u64_from_le_bytes(raw) as i64) as i32
    }

    fn static_type() -> u32 {
        Type::FD
    }

    fn raw_size() -> usize {
        8
    }

    fn read_raw_value(bytes: &[u8], offset: usize) -> i32 {
        read_u64(bytes, offset) as i64 as i32
    }
}

impl WriteValue for PodFdRef {
    open spec fn spec_encode(value: i32) -> Seq<u8> {
        spec_le_u64((value as i64) as u64)
    }

    proof fn lemma_encode(value: i32) {
        lemma_le_u64((value as i64) as u64);
        assert((((value as i64) as u64) as i64) as i32 == value) by (bit_vector);
    }

    fn write_raw_value(buffer: &mut Vec<u8>, value: &i32) {
        write_value_u64(buffer, *value as i64 as u64);
    }
}

/// A pod kind whose pods can be allocated from a value.
pub trait FromValue: WritePod {
    /// Allocates the pod holding `value`.
    fn from_value(value: &Self::Value) -> (r: PodResult<AllocatedData<Self>>)
        requires
            Self::spec_writable(*value),
        ensures
            r matches Ok(data) && data@ == Self::spec_pod_bytes(*value) + spec_padding(
                Self::spec_pod_bytes(*value).len(),
            ),
    {
        AllocatedData::<Self>::from_value(value)
    }
}

/// A primitive pod kind whose pods can be allocated from a value passed by value.
pub trait FromPrimitiveValue: WritePod + PrimitiveValue {
    /// Allocates the pod holding `value`.
    fn from_primitive(value: Self::Value) -> (r: PodResult<AllocatedData<Self>>)
        requires
            Self::spec_writable(value),
        ensures
            r matches Ok(data) && data@ == Self::spec_pod_bytes(value) + spec_padding(
                Self::spec_pod_bytes(value).len(),
            ),
    {
        Ok(PodBuf::<Self>::from_value(&value)?.into_pod())
    }
}

impl WritePod for PodBoolRef {
    open spec fn spec_writable(value: Self::Value) -> bool {
        true
    }

    open spec fn spec_pod_bytes(value: Self::Value) -> Seq<u8> {
        spec_primitive_pod::<Self>(value)
    }

    proof fn lemma_pod_bytes(value: Self::Value) {
        lemma_primitive_roundtrip::<Self>(value);
    }

    fn write_pod(buffer: &mut Vec<u8>, value: &Self::Value) -> PodResult<()> {
        write_primitive_pod::<Self>(buffer, value)
    }
}

impl PrimitiveValue for PodBoolRef {

}

impl FromValue for PodBoolRef {

}

impl FromPrimitiveValue for PodBoolRef {

}

impl WritePod for PodIntRef {
    open spec fn spec_writable(value: Self::Value) -> bool {
        true
    }

    open spec fn spec_pod_bytes(value: Self::Value) -> Seq<u8> {
        spec_primitive_pod::<Self>(value)
    }

    proof fn lemma_pod_bytes(value: Self::Value) {
        lemma_primitive_roundtrip::<Self>(value);
    }

    fn write_pod(buffer: &mut Vec<u8>, value: &Self::Value) -> PodResult<()> {
        write_primitive_pod::<Self>(buffer, value)
    }
}

impl PrimitiveValue for PodIntRef {

}

impl FromValue for PodIntRef {

}

impl FromPrimitiveValue for PodIntRef {

}

impl WritePod for PodLongRef {
    open spec fn spec_writable(value: Self::Value) -> bool {
        true
    }

    open spec fn spec_pod_bytes(value: Self::Value) -> Seq<u8> {
        spec_primitive_pod::<Self>(value)
    }

    proof fn lemma_pod_bytes(value: Self::Value) {
        lemma_primitive_roundtrip::<Self>(value);
    }

    fn write_pod(buffer: &mut Vec<u8>, value: &Self::Value) -> PodResult<()> {
        write_primitive_pod::<Self>(buffer, value)
    }
}

impl PrimitiveValue for PodLongRef {

}

impl FromValue for PodLongRef {

}

impl FromPrimitiveValue for PodLongRef {

}

impl WritePod for PodFloatRef {
    open spec fn spec_writable(value: Self::Value) -> bool {
        true
    }

    open spec fn spec_pod_bytes(value: Self::Value) -> Seq<u8> {
        spec_primitive_pod::<Self>(value)
    }

    proof fn lemma_pod_bytes(value: Self::Value) {
        lemma_primitive_roundtrip::<Self>(value);
    }

    fn write_pod(buffer: &mut Vec<u8>, value: &Self::Value) -> PodResult<()> {
        write_primitive_pod::<Self>(buffer, value)
    }
}

impl PrimitiveValue for PodFloatRef {

}

impl FromValue for PodFloatRef {

}

impl FromPrimitiveValue for PodFloatRef {

}

impl WritePod for PodDoubleRef {
    open spec fn spec_writable(value: Self::Value) -> bool {
        true
    }

    open spec fn spec_pod_bytes(value: Self::Value) -> Seq<u8> {
        spec_primitive_pod::<Self>(value)
    }

    proof fn lemma_pod_bytes(value: Self::Value) {
        lemma_primitive_roundtrip::<Self>(value);
    }

    fn write_pod(buffer: &mut Vec<u8>, value: &Self::Value) -> PodResult<()> {
        write_primitive_pod::<Self>(buffer, value)
    }
}

impl PrimitiveValue for PodDoubleRef {

}

impl FromValue for PodDoubleRef {

}

impl FromPrimitiveValue for PodDoubleRef {

}

impl WritePod for PodRectangleRef {
    open spec fn spec_writable(value: Self::Value) -> bool {
        true
    }

    open spec fn spec_pod_bytes(value: Self::Value) -> Seq<u8> {
        spec_primitive_pod::<Self>(value)
    }

    proof fn lemma_pod_bytes(value: Self::Value) {
        lemma_primitive_roundtrip::<Self>(value);
    }

    fn write_pod(buffer: &mut Vec<u8>, value: &Self::Value) -> PodResult<()> {
        write_primitive_pod::<Self>(buffer, value)
    }
}

impl PrimitiveValue for PodRectangleRef {

}

impl FromValue for PodRectangleRef {

}

impl FromPrimitiveValue for PodRectangleRef {

}

impl WritePod for PodFractionRef {
    open spec fn spec_writable(value: Self::Value) -> bool {
        true
    }

    open spec fn spec_pod_bytes(value: Self::Value) -> Seq<u8> {
        spec_primitive_pod::<Self>(value)
    }

    proof fn lemma_pod_bytes(value: Self::Value) {
        lemma_primitive_roundtrip::<Self>(value);
    }

    fn write_pod(buffer: &mut Vec<u8>, value: &Self::Value) -> PodResult<()> {
        write_primitive_pod::<Self>(buffer, value)
    }
}

impl PrimitiveValue for PodFractionRef {

}

impl FromValue for PodFractionRef {

}

impl FromPrimitiveValue for PodFractionRef {

}

impl WritePod for PodFdRef {
    open spec fn spec_writable(value: Self::Value) -> bool {
        true
    }

    open spec fn spec_pod_bytes(value: Self::Value) -> Seq<u8> {
        spec_primitive_pod::<Self>(value)
    }

    proof fn lemma_pod_bytes(value: Self::Value) {
        lemma_primitive_roundtrip::<Self>(value);
    }

    fn write_pod(buffer: &mut Vec<u8>, value: &Self::Value) -> PodResult<()> {
        write_primitive_pod::<Self>(buffer, value)
    }
}

impl PrimitiveValue for PodFdRef {

}

impl FromValue for PodFdRef {

}

impl FromPrimitiveValue for PodFdRef {

}

impl WritePod for id::PodIdRef {
    open spec fn spec_writable(value: Self::Value) -> bool {
        true
    }

    open spec fn spec_pod_bytes(value: Self::Value) -> Seq<u8> {
        spec_primitive_pod::<Self>(value)
    }

    proof fn lemma_pod_bytes(value: Self::Value) {
        lemma_primitive_roundtrip::<Self>(value);
    }

    fn write_pod(buffer: &mut Vec<u8>, value: &Self::Value) -> PodResult<()> {
        write_primitive_pod::<Self>(buffer, value)
    }
}

impl PrimitiveValue for id::PodIdRef {

}

impl FromValue for id::PodIdRef {

}

impl FromPrimitiveValue for id::PodIdRef {

}

/// Reading a written primitive pod gives its value back.
pub proof fn lemma_primitive_roundtrip<K: WriteValue>(value: K::Value)
    ensures
        spec_is_pod(spec_primitive_pod::<K>(value)),
        spec_pod_type(spec_primitive_pod::<K>(value)) == K::spec_static_type(),
        spec_pod_body_size(spec_primitive_pod::<K>(value)) == K::spec_raw_size(),
        spec_primitive_value::<K>(spec_primitive_pod::<K>(value)) == Ok::<K::Value, PodError>(value),
{
    let pod = spec_primitive_pod::<K>(value);
    K::lemma_encode(value);
    K::lemma_kind();
    crate::spa::pod::restricted::lemma_header(
        K::spec_raw_size() as u32,
        K::spec_static_type(),
        K::spec_encode(value),
    );
    assert(pod.subrange(POD_HEADER_SIZE as int, POD_HEADER_SIZE + K::spec_raw_size())
        =~= K::spec_encode(value));
}

/// The pod at the start of written data, followed by its padding, is the written pod.
pub proof fn lemma_pod_from_padded(pod: Seq<u8>)
    requires
        spec_is_pod(pod),
    ensures
        spec_pod_from_bytes(pod + spec_padding(pod.len())) == Ok::<Seq<u8>, PodError>(pod),
{
    let bytes = pod + spec_padding(pod.len());
    assert(bytes.subrange(0, 4) =~= pod.subrange(0, 4));
    assert(bytes.subrange(0, pod.len() as int) =~= pod);
}

impl<'a> SizedPod for PodRef<'a> {
    open spec fn spec_pod_size(&self) -> nat {
        self@.len()
    }

    fn pod_size(&self) -> usize {
        self.as_bytes().len()
    }
}

impl<'a> CloneTo for PodRef<'a> {
    open spec fn spec_pod_bytes(&self) -> Seq<u8> {
        self@
    }

    fn clone_to(&self, buffer: &mut Vec<u8>) -> PodResult<()> {
        let ghost start = buffer@;
        let bytes = self.as_bytes();
        write_bytes(buffer, bytes);
        write_zeros(buffer, padding_len(bytes.len()));
        assert(buffer@ =~= start + self@ + spec_padding(self@.len()));
        assert(<PodRef<'a> as CloneTo>::spec_pod_bytes(self) == self@);
        Ok(())
    }
}

} // verus!

verus! {

/// What each primitive kind reads from a pod whose body holds its value: a boolean is true
/// exactly when its 32-bit word is not zero; ids, ints and float bits are the 32-bit word;
/// longs and double bits the 64-bit word; a rectangle is the width then the height, a
/// fraction the numerator then the denominator; a file descriptor is the 64-bit word.
pub proof fn lemma_primitive_read_layout(pod: Seq<u8>)
    requires
        pod.len() >= POD_HEADER_SIZE + 8,
        spec_pod_body_size(pod) >= 8,
    ensures
        spec_primitive_value::<PodBoolRef>(pod) == Ok::<bool, PodError>(spec_read_u32(pod, 8) != 0),
        spec_primitive_value::<id::PodIdRef>(pod) == Ok::<u32, PodError>(spec_read_u32(pod, 8)),
        spec_primitive_value::<PodIntRef>(pod) == Ok::<i32, PodError>(spec_read_u32(pod, 8) as i32),
        spec_primitive_value::<PodLongRef>(pod) == Ok::<i64, PodError>(spec_read_u64(pod, 8) as i64),
        spec_primitive_value::<PodFloatRef>(pod) == Ok::<u32, PodError>(spec_read_u32(pod, 8)),
        spec_primitive_value::<PodDoubleRef>(pod) == Ok::<u64, PodError>(spec_read_u64(pod, 8)),
        spec_primitive_value::<PodRectangleRef>(pod) == Ok::<RectangleRef, PodError>(
            RectangleRef { width: spec_read_u32(pod, 8), height: spec_read_u32(pod, 12) },
        ),
        spec_primitive_value::<PodFractionRef>(pod) == Ok::<FractionRef, PodError>(
            FractionRef { num: spec_read_u32(pod, 8), denom: spec_read_u32(pod, 12) },
        ),
        spec_primitive_value::<PodFdRef>(pod) == Ok::<i32, PodError>(
            (spec_read_u64(pod, 8) as i64) as i32,
        ),
{
    let raw = pod.subrange(8, 16);
    assert(raw.subrange(0, 4) =~= pod.subrange(8, 12));
    assert(raw.subrange(4, 8) =~= pod.subrange(12, 16));
    assert(pod.subrange(8, 8 + 4int) =~= pod.subrange(8, 12));
    assert(pod.subrange(8, 8 + 8int) =~= raw);
}

/// The words each written primitive pod holds: the body size and type of its kind, then a
/// boolean as 1 for true and 0 for false; ids, ints and float bits as the 32-bit word;
/// longs, double bits and file descriptors as the 64-bit word; a rectangle as the width
/// then the height; a fraction as the numerator then the denominator.
pub proof fn lemma_primitive_write_layout(
    b: bool,
    id: u32,
    i: i32,
    l: i64,
    f: u32,
    d: u64,
    r: RectangleRef,
    fr: FractionRef,
    fd: i32,
)
    ensures
        spec_pod_body_size(spec_primitive_pod::<PodBoolRef>(b)) == 4,
        spec_pod_type(spec_primitive_pod::<PodBoolRef>(b)) == Type::BOOL,
        spec_read_u32(spec_primitive_pod::<PodBoolRef>(b), 8) == (if b {
            1u32
        } else {
            0u32
        }),
        spec_pod_body_size(spec_primitive_pod::<id::PodIdRef>(id)) == 4,
        spec_pod_type(spec_primitive_pod::<id::PodIdRef>(id)) == Type::ID,
        spec_read_u32(spec_primitive_pod::<id::PodIdRef>(id), 8) == id,
        spec_pod_body_size(spec_primitive_pod::<PodIntRef>(i)) == 4,
        spec_pod_type(spec_primitive_pod::<PodIntRef>(i)) == Type::INT,
        spec_read_u32(spec_primitive_pod::<PodIntRef>(i), 8) == i as u32,
        spec_pod_body_size(spec_primitive_pod::<PodLongRef>(l)) == 8,
        spec_pod_type(spec_primitive_pod::<PodLongRef>(l)) == Type::LONG,
        spec_read_u64(spec_primitive_pod::<PodLongRef>(l), 8) == l as u64,
        spec_pod_body_size(spec_primitive_pod::<PodFloatRef>(f)) == 4,
        spec_pod_type(spec_primitive_pod::<PodFloatRef>(f)) == Type::FLOAT,
        spec_read_u32(spec_primitive_pod::<PodFloatRef>(f), 8) == f,
        spec_pod_body_size(spec_primitive_pod::<PodDoubleRef>(d)) == 8,
        spec_pod_type(spec_primitive_pod::<PodDoubleRef>(d)) == Type::DOUBLE,
        spec_read_u64(spec_primitive_pod::<PodDoubleRef>(d), 8) == d,
        spec_pod_body_size(spec_primitive_pod::<PodRectangleRef>(r)) == 8,
        spec_pod_type(spec_primitive_pod::<PodRectangleRef>(r)) == Type::RECTANGLE,
        spec_read_u32(spec_primitive_pod::<PodRectangleRef>(r), 8) == r.width,
        spec_read_u32(spec_primitive_pod::<PodRectangleRef>(r), 12) == r.height,
        spec_pod_body_size(spec_primitive_pod::<PodFractionRef>(fr)) == 8,
        spec_pod_type(spec_primitive_pod::<PodFractionRef>(fr)) == Type::FRACTION,
        spec_read_u32(spec_primitive_pod::<PodFractionRef>(fr), 8) == fr.num,
        spec_read_u32(spec_primitive_pod::<PodFractionRef>(fr), 12) == fr.denom,
        spec_pod_body_size(spec_primitive_pod::<PodFdRef>(fd)) == 8,
        spec_pod_type(spec_primitive_pod::<PodFdRef>(fd)) == Type::FD,
        spec_read_u64(spec_primitive_pod::<PodFdRef>(fd), 8) == (fd as i64) as u64,
{
    let bw: u32 = if b {
        1
    } else {
        0
    };
    crate::spa::pod::restricted::lemma_header(4, Type::BOOL, spec_le_u32(bw));
    lemma_read_u32(spec_header(4, Type::BOOL), bw, Seq::empty());
    assert(spec_primitive_pod::<PodBoolRef>(b) =~= spec_header(4, Type::BOOL) + spec_le_u32(bw)
        + Seq::<u8>::empty());
    crate::spa::pod::restricted::lemma_header(4, Type::ID, spec_le_u32(id));
    lemma_read_u32(spec_header(4, Type::ID), id, Seq::empty());
    assert(spec_primitive_pod::<id::PodIdRef>(id) =~= spec_header(4, Type::ID) + spec_le_u32(id)
        + Seq::<u8>::empty());
    crate::spa::pod::restricted::lemma_header(4, Type::INT, spec_le_u32(i as u32));
    lemma_read_u32(spec_header(4, Type::INT), i as u32, Seq::empty());
    assert(spec_primitive_pod::<PodIntRef>(i) =~= spec_header(4, Type::INT) + spec_le_u32(i as u32)
        + Seq::<u8>::empty());
    crate::spa::pod::restricted::lemma_header(8, Type::LONG, spec_le_u64(l as u64));
    crate::spa::pod::restricted::lemma_read_u64(spec_header(8, Type::LONG), l as u64, Seq::empty());
    assert(spec_primitive_pod::<PodLongRef>(l) =~= spec_header(8, Type::LONG) + spec_le_u64(
        l as u64,
    ) + Seq::<u8>::empty());
    crate::spa::pod::restricted::lemma_header(4, Type::FLOAT, spec_le_u32(f));
    lemma_read_u32(spec_header(4, Type::FLOAT), f, Seq::empty());
    assert(spec_primitive_pod::<PodFloatRef>(f) =~= spec_header(4, Type::FLOAT) + spec_le_u32(f)
        + Seq::<u8>::empty());
    crate::spa::pod::restricted::lemma_header(8, Type::DOUBLE, spec_le_u64(d));
    crate::spa::pod::restricted::lemma_read_u64(spec_header(8, Type::DOUBLE), d, Seq::empty());
    assert(spec_primitive_pod::<PodDoubleRef>(d) =~= spec_header(8, Type::DOUBLE) + spec_le_u64(d)
        + Seq::<u8>::empty());
    let rect = spec_le_u32(r.width) + spec_le_u32(r.height);
    crate::spa::pod::restricted::lemma_header(8, Type::RECTANGLE, rect);
    lemma_read_u32(spec_header(8, Type::RECTANGLE), r.width, spec_le_u32(r.height));
    lemma_read_u32(spec_header(8, Type::RECTANGLE) + spec_le_u32(r.width), r.height, Seq::empty());
    assert(spec_primitive_pod::<PodRectangleRef>(r) =~= spec_header(8, Type::RECTANGLE)
        + spec_le_u32(r.width) + spec_le_u32(r.height));
    assert(spec_primitive_pod::<PodRectangleRef>(r) =~= spec_header(8, Type::RECTANGLE)
        + spec_le_u32(r.width) + spec_le_u32(r.height) + Seq::<u8>::empty());
    lemma_le_u32(r.width);
    let frac = spec_le_u32(fr.num) + spec_le_u32(fr.denom);
    crate::spa::pod::restricted::lemma_header(8, Type::FRACTION, frac);
    lemma_read_u32(spec_header(8, Type::FRACTION), fr.num, spec_le_u32(fr.denom));
    lemma_read_u32(spec_header(8, Type::FRACTION) + spec_le_u32(fr.num), fr.denom, Seq::empty());
    assert(spec_primitive_pod::<PodFractionRef>(fr) =~= spec_header(8, Type::FRACTION)
        + spec_le_u32(fr.num) + spec_le_u32(fr.denom));
    assert(spec_primitive_pod::<PodFractionRef>(fr) =~= spec_header(8, Type::FRACTION)
        + spec_le_u32(fr.num) + spec_le_u32(fr.denom) + Seq::<u8>::empty());
    lemma_le_u32(fr.num);
    crate::spa::pod::restricted::lemma_header(8, Type::FD, spec_le_u64((fd as i64) as u64));
    crate::spa::pod::restricted::lemma_read_u64(
        spec_header(8, Type::FD),
        (fd as i64) as u64,
        Seq::empty(),
    );
    assert(spec_primitive_pod::<PodFdRef>(fd) =~= spec_header(8, Type::FD) + spec_le_u64(
        (fd as i64) as u64,
    ) + Seq::<u8>::empty());
}

} // verus!

//! Choice pods: a set of possible values of one primitive kind.
//!
//! The body of a choice pod is the choice type, the flags and the child header
//! (element size and element type), followed by the raw elements.
pub mod enum_;
pub mod flags;
pub mod none;
pub mod range;
pub mod step;

use vstd::prelude::*;
use vstd::slice::slice_subrange;

use crate::spa::pod::restricted::{
    lemma_header, lemma_le_u32, lemma_padding_shift, lemma_read_u32, read_u32, spec_header,
    spec_le_u32, spec_padding, spec_pod_body_size, spec_pod_type, spec_read_u32,
    write_align_padding, write_header, write_value, PodRawValue, WriteValue,
};
use crate::spa::pod::choice::enum_::{spec_enum_ends, spec_enum_values, PodEnumRef, PodEnumValue};
use crate::spa::pod::choice::flags::{spec_flags_ends, spec_flags_values, PodFlagsRef, PodFlagsValue};
use crate::spa::pod::choice::none::{spec_none_complete, spec_none_values, PodNoneRef};
use crate::spa::pod::choice::range::{spec_range_complete, spec_range_values, PodRangeRef, PodRangeValue};
use crate::spa::pod::choice::step::{spec_step_complete, spec_step_values, PodStepRef, PodStepValue};
use crate::spa::pod::id::PodIdRef;
use crate::spa::pod::restricted::{PodValue, WritePod};
use crate::spa::pod::{
    primitive_value, spec_primitive_pod, spec_primitive_value, write_primitive_pod, PodBoolRef,
    PodDoubleRef, PodError, PodFloatRef, PodFractionRef, PodIntRef, PodLongRef, PodRectangleRef,
    PodRef, PodResult, POD_ALIGN, POD_HEADER_SIZE,
};
use crate::spa::type_::Type;

verus! {

/// Namespace of the choice types.
pub struct ChoiceType;

impl ChoiceType {
    pub const NONE: u32 = 0;
    pub const RANGE: u32 = 1;
    pub const STEP: u32 = 2;
    pub const ENUM: u32 = 3;
    pub const FLAGS: u32 = 4;
}

/// Size of the choice body before the elements: type, flags and child header.
pub const CHOICE_BODY_SIZE: usize = 16;

/// Offset of the first element in a choice pod.
pub const CHOICE_CONTENT_OFFSET: usize = 24;

/// Raw encoding of the elements `values`, one after the other.
pub open spec fn spec_encode_all<T: WriteValue>(values: Seq<T::Value>) -> Seq<u8>
    decreases values.len(),
{
    if values.len() == 0 {
        Seq::empty()
    } else {
        spec_encode_all::<T>(values.drop_last()) + T::spec_encode(values.last())
    }
}

/// The elements of size `element_size` read one after the other from `content`.
/// Reading stops when an element does not fit, or is smaller than the raw value.
pub open spec fn spec_elements<T: PodRawValue>(content: Seq<u8>, element_size: nat) -> Seq<T::Value>
    decreases content.len(),
{
    if element_size == 0 || element_size < T::spec_raw_size() || content.len() < element_size {
        Seq::empty()
    } else {
        seq![T::spec_decode(content.subrange(0, T::spec_raw_size() as int))]
            + spec_elements::<T>(
            content.subrange(element_size as int, content.len() as int),
            element_size,
        )
    }
}

/// The choice pod of type `choice_type` holding `values` of kind `T`, without padding.
pub open spec fn spec_choice_pod<T: WriteValue>(choice_type: u32, values: Seq<T::Value>) -> Seq<
    u8,
> {
    spec_header((CHOICE_BODY_SIZE + values.len() * T::spec_raw_size()) as u32, Type::CHOICE)
        + spec_le_u32(choice_type) + spec_le_u32(0) + spec_le_u32(T::spec_raw_size() as u32)
        + spec_le_u32(T::spec_static_type()) + spec_encode_all::<T>(values)
}

/// Whether `count` elements of kind `T` fit the size field of a choice header.
pub open spec fn spec_choice_writable<T: PodRawValue>(count: nat) -> bool {
    CHOICE_BODY_SIZE + count * T::spec_raw_size() <= u32::MAX
}

/// Choice type of the choice pod `pod`.
pub open spec fn spec_choice_type(pod: Seq<u8>) -> u32 {
    spec_read_u32(pod, 8)
}

/// Flags of the choice pod `pod`.
pub open spec fn spec_choice_flags(pod: Seq<u8>) -> u32 {
    spec_read_u32(pod, 12)
}

/// Element size of the choice pod `pod`.
pub open spec fn spec_choice_child_size(pod: Seq<u8>) -> u32 {
    spec_read_u32(pod, 16)
}

/// Element type of the choice pod `pod`.
pub open spec fn spec_choice_child_type(pod: Seq<u8>) -> u32 {
    spec_read_u32(pod, 20)
}

/// The elements region of the choice pod `pod`.
pub open spec fn spec_choice_content(pod: Seq<u8>) -> Seq<u8> {
    pod.subrange(CHOICE_CONTENT_OFFSET as int, pod.len() as int)
}

/// Whether the choice pod `pod` has a complete choice body.
pub open spec fn spec_has_choice_body(pod: Seq<u8>) -> bool {
    spec_pod_body_size(pod) >= CHOICE_BODY_SIZE
}

/// The elements of kind `T` of the choice pod `pod`, when its choice type is `expected`
/// and its element type is the type of `T`; generic pods stand for elements of any type.
pub open spec fn spec_choice_values<T: PodRawValue>(pod: Seq<u8>, expected: u32) -> PodResult<
    Seq<T::Value>,
> {
    if spec_choice_type(pod) != expected {
        Err(PodError::UnexpectedChoiceType(expected, spec_choice_type(pod)))
    } else if spec_choice_child_type(pod) != T::spec_static_type() && T::spec_static_type()
        != Type::POD {
        Err(PodError::WrongPodTypeToCast(T::spec_static_type(), spec_choice_child_type(pod)))
    } else {
        Ok(
            spec_elements::<T>(
                spec_choice_content(pod),
                spec_choice_child_size(pod) as nat,
            ),
        )
    }
}

pub proof fn lemma_encode_all_len<T: WriteValue>(values: Seq<T::Value>)
    ensures
        spec_encode_all::<T>(values).len() == values.len() * T::spec_raw_size(),
    decreases values.len(),
{
    if values.len() > 0 {
        lemma_encode_all_len::<T>(values.drop_last());
        T::lemma_encode(values.last());
        let n = values.len();
        let r = T::spec_raw_size();
        assert((n - 1) * r + r == n * r) by (nonlinear_arith);
    }
}

/// The encoding of a sequence starts with the encoding of its first element.
pub proof fn lemma_encode_all_front<T: WriteValue>(values: Seq<T::Value>)
    requires
        values.len() > 0,
    ensures
        spec_encode_all::<T>(values) == T::spec_encode(values[0]) + spec_encode_all::<T>(
            values.drop_first(),
        ),
    decreases values.len(),
{
    if values.len() == 1 {
        assert(values.drop_last() =~= Seq::<T::Value>::empty());
        assert(values.drop_first() =~= Seq::<T::Value>::empty());
        assert(spec_encode_all::<T>(values) =~= T::spec_encode(values[0]) + spec_encode_all::<T>(
            values.drop_first(),
        ));
    } else {
        lemma_encode_all_front::<T>(values.drop_last());
        assert(values.drop_last().drop_first() =~= values.drop_first().drop_last());
        assert(values.drop_first().last() == values.last());
        assert(values.drop_last()[0] == values[0]);
        assert(spec_encode_all::<T>(values) =~= T::spec_encode(values[0]) + spec_encode_all::<T>(
            values.drop_first(),
        ));
    }
}

/// Appending one element to a sequence appends its encoding.
pub proof fn lemma_encode_all_push<T: WriteValue>(values: Seq<T::Value>, value: T::Value)
    ensures
        spec_encode_all::<T>(values.push(value)) == spec_encode_all::<T>(values) + T::spec_encode(
            value,
        ),
{
    assert(values.push(value).drop_last() =~= values);
}

/// Reading the encoded elements gives them back.
pub proof fn lemma_elements_of_encoding<T: WriteValue>(values: Seq<T::Value>)
    ensures
        spec_elements::<T>(spec_encode_all::<T>(values), T::spec_raw_size()) == values,
    decreases values.len(),
{
    lemma_encode_all_len::<T>(values);
    if values.len() == 0 {
        assert(spec_elements::<T>(spec_encode_all::<T>(values), T::spec_raw_size()) =~= values);
    } else {
        lemma_encode_all_front::<T>(values);
        lemma_encode_all_len::<T>(values.drop_first());
        T::lemma_encode(values[0]);
        lemma_elements_of_encoding::<T>(values.drop_first());
        let bytes = spec_encode_all::<T>(values);
        let r = T::spec_raw_size();
        assert(r > 0) by {
            T::lemma_encode(values[0]);
        }
        assert(bytes.subrange(0, r as int) =~= T::spec_encode(values[0]));
        assert(bytes.subrange(r as int, bytes.len() as int) =~= spec_encode_all::<T>(
            values.drop_first(),
        ));
        assert(spec_elements::<T>(bytes, r) =~= values);
    }
}

/// Whether the choice pod `pod` read with elements of kind `T` never runs out of elements:
/// generic pods of size zero take no room, so a non-empty elements region holds endlessly
/// many of them.
pub open spec fn spec_endless<T: PodRawValue>(pod: Seq<u8>) -> bool {
    &&& T::spec_static_type() == Type::POD
    &&& spec_choice_child_size(pod) == 0
    &&& spec_choice_content(pod).len() > 0
}

/// Whether the choice pod `pod` read with elements of kind `T` never runs out of elements.
pub fn endless<T: PodRawValue>(pod: &PodRef) -> (r: bool)
    requires
        spec_has_choice_body(pod@),
    ensures
        r == spec_endless::<T>(pod@),
{
    let _size = pod.size();
    let bytes = pod.as_bytes();
    T::static_type() == Type::POD && read_u32(bytes, 16) == 0 && bytes.len()
        > CHOICE_CONTENT_OFFSET
}

/// Write the choice header and body for `count` elements of kind `T`.
pub fn write_choice_header<T: WriteValue>(buffer: &mut Vec<u8>, choice_type: u32, count: usize) -> (r:
    PodResult<()>)
    requires
        spec_choice_writable::<T>(count as nat),
    ensures
        old(buffer)@.len() % (POD_ALIGN as nat) == 0 ==> r == Ok::<(), PodError>(())
            && final(buffer)@ == old(buffer)@ + spec_header(
            (CHOICE_BODY_SIZE + count * T::spec_raw_size()) as u32,
            Type::CHOICE,
        ) + spec_le_u32(choice_type) + spec_le_u32(0) + spec_le_u32(T::spec_raw_size() as u32)
            + spec_le_u32(T::spec_static_type()),
        old(buffer)@.len() % (POD_ALIGN as nat) != 0 ==> r == Err::<(), PodError>(
            PodError::PodIsNotAligned,
        ) && final(buffer)@ == old(buffer)@,
{
    let raw_size = T::raw_size();
    assert(count * raw_size <= u32::MAX) by (nonlinear_arith)
        requires
            CHOICE_BODY_SIZE + count * raw_size <= u32::MAX,
    ;
    let size = (CHOICE_BODY_SIZE + count * raw_size) as u32;
    let ghost start = buffer@;
    write_header(buffer, size, Type::CHOICE)?;
    write_value(buffer, choice_type);
    write_value(buffer, 0);
    write_value(buffer, raw_size as u32);
    write_value(buffer, T::static_type());
    assert(buffer@ =~= start + spec_header(size, Type::CHOICE) + spec_le_u32(choice_type)
        + spec_le_u32(0) + spec_le_u32(raw_size as u32) + spec_le_u32(T::spec_static_type()));
    Ok(())
}

/// Read the elements of size `element_size` from `content`.
pub fn parse_elements<T: PodRawValue>(content: &[u8], element_size: usize) -> (values: Vec<T::Value>)
    ensures
        values@ == spec_elements::<T>(content@, element_size as nat),
{
    let mut values: Vec<T::Value> = Vec::new();
    let raw_size = T::raw_size();
    if element_size == 0 || element_size < raw_size {
        return values;
    }
    let len = content.len();
    let mut pos: usize = 0;
    assert(content@.subrange(0, len as int) =~= content@);
    while pos <= len && len - pos >= element_size
        invariant
            pos <= len,
            len == content@.len(),
            element_size >= raw_size,
            raw_size == T::spec_raw_size(),
            element_size > 0,
            values@ + spec_elements::<T>(content@.subrange(pos as int, len as int), element_size as nat)
                == spec_elements::<T>(content@, element_size as nat),
        decreases len - pos,
    {
        let v = T::read_raw_value(content, pos);
        proof {
            let rest = content@.subrange(pos as int, len as int);
            assert(rest.subrange(0, raw_size as int) =~= content@.subrange(
                pos as int,
                pos + raw_size,
            ));
            assert(rest.subrange(element_size as int, rest.len() as int) =~= content@.subrange(
                pos + element_size,
                len as int,
            ));
            assert(values@.push(v) + spec_elements::<T>(
                content@.subrange(pos + element_size, len as int),
                element_size as nat,
            ) =~= values@ + spec_elements::<T>(rest, element_size as nat));
        }
        values.push(v);
        pos = pos + element_size;
    }
    proof {
        assert(spec_elements::<T>(content@.subrange(pos as int, len as int), element_size as nat)
            =~= Seq::<T::Value>::empty());
        assert(values@ + Seq::<T::Value>::empty() =~= values@);
    }
    values
}

/// The elements of kind `T` of the choice pod `pod`, when its choice type is `expected`.
pub fn parse_choice_values<T: PodRawValue>(pod: &PodRef, expected: u32) -> (r: PodResult<
    Vec<T::Value>,
>)
    requires
        spec_has_choice_body(pod@),
    ensures
        spec_choice_values::<T>(pod@, expected) matches Ok(vs) ==> r matches Ok(values)
            && values@ == vs,
        spec_choice_values::<T>(pod@, expected) matches Err(e) ==> r == Err::<
            Vec<T::Value>,
            PodError,
        >(e),
{
    let bytes = pod.as_bytes();
    let choice_type = read_u32(bytes, 8);
    if choice_type != expected {
        return Err(PodError::UnexpectedChoiceType(expected, choice_type));
    }
    let child_type = read_u32(bytes, 20);
    if child_type != T::static_type() && T::static_type() != Type::POD {
        return Err(PodError::WrongPodTypeToCast(T::static_type(), child_type));
    }
    let child_size = read_u32(bytes, 16) as usize;
    let content = slice_subrange(bytes, CHOICE_CONTENT_OFFSET, bytes.len());
    Ok(parse_elements::<T>(content, child_size))
}

/// Value of a choice pod with elements of kind `T`.
pub enum ChoiceStructType<T: PodRawValue> {
    NONE(T::Value),
    RANGE(PodRangeValue<T::Value>),
    STEP(PodStepValue<T::Value>),
    ENUM(PodEnumValue<T::Value>),
    FLAGS(PodFlagsValue<T::Value>),
    /// Any primitive pod of kind `T` can stand where a choice is expected.
    /// This value is used to be able to parse Format as EnumFormat without errors.
    VALUE(T::Value),
}

impl<T: PodRawValue> ChoiceStructType<T> {
    /// The choice type, or `None` for a plain value.
    pub open spec fn spec_choice_type(&self) -> Option<u32> {
        match self {
            ChoiceStructType::NONE(_) => Some(ChoiceType::NONE),
            ChoiceStructType::RANGE(_) => Some(ChoiceType::RANGE),
            ChoiceStructType::STEP(_) => Some(ChoiceType::STEP),
            ChoiceStructType::ENUM(_) => Some(ChoiceType::ENUM),
            ChoiceStructType::FLAGS(_) => Some(ChoiceType::FLAGS),
            ChoiceStructType::VALUE(_) => None,
        }
    }

    /// The elements of the choice, the default first.
    pub open spec fn spec_values(&self) -> Seq<T::Value> {
        match self {
            ChoiceStructType::NONE(v) => seq![*v],
            ChoiceStructType::RANGE(v) => v.spec_values(),
            ChoiceStructType::STEP(v) => v.spec_values(),
            ChoiceStructType::ENUM(v) => v.spec_values(),
            ChoiceStructType::FLAGS(v) => v.spec_values(),
            ChoiceStructType::VALUE(v) => seq![*v],
        }
    }

    /// The default value of the choice.
    pub fn default(&self) -> (default: &T::Value)
        ensures
            *default == self.spec_values()[0],
    {
        match self {
            ChoiceStructType::NONE(v) => v,
            ChoiceStructType::RANGE(v) => v.default(),
            ChoiceStructType::STEP(v) => v.default(),
            ChoiceStructType::ENUM(v) => v.default(),
            ChoiceStructType::FLAGS(v) => v.default(),
            ChoiceStructType::VALUE(v) => v,
        }
    }
}

/// Outcome of reading choice values tagged with their choice type.
pub open spec fn spec_tagged<T>(choice_type: Option<u32>, r: PodResult<Seq<T>>) -> PodResult<
    (Option<u32>, Seq<T>),
> {
    match r {
        Ok(values) => Ok((choice_type, values)),
        Err(e) => Err(e),
    }
}

/// Outcome of reading the choice pod `pod` with elements of kind `T`:
/// the choice type and the elements.
pub open spec fn spec_parse_choice<T: PodRawValue>(pod: Seq<u8>) -> PodResult<
    (Option<u32>, Seq<T::Value>),
> {
    let choice_type = spec_choice_type(pod);
    if choice_type == ChoiceType::NONE {
        spec_tagged(Some(choice_type), spec_none_values::<T>(pod))
    } else if choice_type == ChoiceType::RANGE {
        spec_tagged(Some(choice_type), spec_range_values::<T>(pod))
    } else if choice_type == ChoiceType::STEP {
        spec_tagged(Some(choice_type), spec_step_values::<T>(pod))
    } else if choice_type == ChoiceType::ENUM {
        spec_tagged(Some(choice_type), spec_enum_values::<T>(pod))
    } else if choice_type == ChoiceType::FLAGS {
        spec_tagged(Some(choice_type), spec_flags_values::<T>(pod))
    } else {
        Err(PodError::UnknownPodTypeToDowncast)
    }
}

/// Whether a choice pod with elements of kind `T` holds the elements that its choice type
/// needs, so that it can be read.
pub open spec fn spec_choice_complete<T: PodRawValue>(pod: Seq<u8>) -> bool {
    &&& spec_has_choice_body(pod)
    &&& spec_none_complete::<T>(pod)
    &&& spec_range_complete::<T>(pod)
    &&& spec_step_complete::<T>(pod)
    &&& spec_enum_ends::<T>(pod)
    &&& spec_flags_ends::<T>(pod)
}

/// Outcome of reading the pod `pod` as a choice with elements of kind `T`:
/// either a choice pod, or a plain pod of kind `T`.
pub open spec fn spec_choice_struct_value<T: PodRawValue>(pod: Seq<u8>) -> PodResult<
    (Option<u32>, Seq<T::Value>),
> {
    if spec_pod_type(pod) == Type::CHOICE {
        spec_parse_choice::<T>(pod)
    } else if spec_pod_type(pod) == T::spec_static_type() {
        match spec_primitive_value::<T>(pod) {
            Ok(v) => Ok((None, seq![v])),
            Err(e) => Err(e),
        }
    } else {
        Err(PodError::UnsupportedChoiceElementType)
    }
}

/// Whether the pod `pod` can be read as a choice with elements of kind `T`.
pub open spec fn spec_choice_readable<T: PodRawValue>(pod: Seq<u8>) -> bool {
    spec_pod_type(pod) == Type::CHOICE ==> spec_choice_complete::<T>(pod)
}

/// Whether `r` is the outcome `s` of reading a choice.
pub open spec fn spec_choice_result<T: PodRawValue>(
    r: PodResult<ChoiceStructType<T>>,
    s: PodResult<(Option<u32>, Seq<T::Value>)>,
) -> bool {
    match s {
        Ok((choice_type, values)) => r matches Ok(c) && c.spec_choice_type() == choice_type
            && c.spec_values() == values,
        Err(e) => r == Err::<ChoiceStructType<T>, PodError>(e),
    }
}

/// Read the choice pod `pod` with elements of kind `T`.
pub fn parse_choice<T: PodRawValue>(pod: &PodRef) -> (r: PodResult<ChoiceStructType<T>>)
    requires
        spec_choice_complete::<T>(pod@),
    ensures
        spec_choice_result(r, spec_parse_choice::<T>(pod@)),
{
    let choice_type = read_u32(pod.as_bytes(), 8);
    if choice_type == ChoiceType::NONE {
        Ok(ChoiceStructType::NONE(PodNoneRef::<T>::value(pod)?))
    } else if choice_type == ChoiceType::RANGE {
        Ok(ChoiceStructType::RANGE(PodRangeRef::<T>::value(pod)?))
    } else if choice_type == ChoiceType::STEP {
        Ok(ChoiceStructType::STEP(PodStepRef::<T>::value(pod)?))
    } else if choice_type == ChoiceType::ENUM {
        Ok(ChoiceStructType::ENUM(PodEnumRef::<T>::value(pod)?))
    } else if choice_type == ChoiceType::FLAGS {
        Ok(ChoiceStructType::FLAGS(PodFlagsRef::<T>::value(pod)?))
    } else {
        Err(PodError::UnknownPodTypeToDowncast)
    }
}

/// The body of a choice pod: choice type, flags, and the size and type of the elements.
#[derive(Debug, Clone, Copy, PartialEq, Eq)]
pub struct PodChoiceBodyRef {
    /// The choice type, one of [ChoiceType].
    pub choice_type: u32,
    /// Flags of the choice.
    pub flags: u32,
    /// Size of each element.
    pub child_size: u32,
    /// Type of the elements.
    pub child_type: u32,
}

impl PodChoiceBodyRef {
    /// The choice type.
    pub fn type_(&self) -> (t: u32)
        ensures
            t == self.choice_type,
    {
        self.choice_type
    }

    /// Flags of the choice.
    pub fn flags(&self) -> (flags: u32)
        ensures
            flags == self.flags,
    {
        self.flags
    }
}

/// Kind of the choice pods with elements of kind `T`.
pub struct PodChoiceRef<T> {
    phantom: std::marker::PhantomData<T>,
}

impl<T: PodRawValue> PodValue for PodChoiceRef<T> {
    type Value = ChoiceStructType<T>;
}

impl<T: PodRawValue> PodChoiceRef<T> {
    /// The choice body of the choice pod `pod`: choice type, flags, element size and type.
    pub fn body(pod: &PodRef) -> (body: PodChoiceBodyRef)
        requires
            spec_has_choice_body(pod@),
        ensures
            body.choice_type == spec_choice_type(pod@),
            body.flags == spec_choice_flags(pod@),
            body.child_size == spec_choice_child_size(pod@),
            body.child_type == spec_choice_child_type(pod@),
    {
        let bytes = pod.as_bytes();
        PodChoiceBodyRef {
            choice_type: read_u32(bytes, 8),
            flags: read_u32(bytes, 12),
            child_size: read_u32(bytes, 16),
            child_type: read_u32(bytes, 20),
        }
    }

    /// Whether `pod` is a plain value standing where a choice is expected.
    pub fn value_choice(pod: &PodRef) -> (r: bool)
        ensures
            r == (spec_pod_type(pod@) != Type::CHOICE),
    {
        pod.type_() != Type::CHOICE
    }

    /// Whether `pod` is a choice of type [ChoiceType::NONE].
    pub fn fixated(pod: &PodRef) -> (r: bool)
        requires
            spec_pod_type(pod@) == Type::CHOICE ==> spec_has_choice_body(pod@),
        ensures
            r == (spec_pod_type(pod@) == Type::CHOICE && spec_choice_type(pod@) == ChoiceType::NONE),
    {
        pod.type_() == Type::CHOICE && read_u32(pod.as_bytes(), 8) == ChoiceType::NONE
    }

    /// Whether the pod `pod` can be read as a choice with elements of kind `T`: a choice pod
    /// must have a choice body and, for the none, range and step choices, the elements they
    /// need.
    pub fn readable(pod: &PodRef) -> (r: bool)
        ensures
            r == spec_choice_readable::<T>(pod@),
    {
        if pod.type_() != Type::CHOICE {
            return true;
        }
        if pod.size() < CHOICE_BODY_SIZE as u32 {
            return false;
        }
        let choice_type = read_u32(pod.as_bytes(), 8);
        let needed: usize = if choice_type == ChoiceType::NONE {
            1
        } else if choice_type == ChoiceType::RANGE {
            3
        } else if choice_type == ChoiceType::STEP {
            4
        } else {
            0
        };
        let no_end = endless::<T>(pod);
        match parse_choice_values::<T>(pod, choice_type) {
            Ok(values) => if choice_type == ChoiceType::ENUM || choice_type == ChoiceType::FLAGS {
                !no_end
            } else {
                values.len() >= needed || no_end
            },
            Err(_) => true,
        }
    }

    /// Value of the pod `pod` read as a choice with elements of kind `T`.
    pub fn value(pod: &PodRef) -> (r: PodResult<ChoiceStructType<T>>)
        requires
            spec_choice_readable::<T>(pod@),
        ensures
            spec_choice_result(r, spec_choice_struct_value::<T>(pod@)),
    {
        let pod_type = pod.type_();
        if pod_type == Type::CHOICE {
            parse_choice::<T>(pod)
        } else if pod_type == T::static_type() {
            Ok(ChoiceStructType::VALUE(primitive_value::<T>(pod)?))
        } else {
            Err(PodError::UnsupportedChoiceElementType)
        }
    }
}

/// The pod holding the choice `value` with elements of kind `T`, without padding.
pub open spec fn spec_choice_struct_pod<T: WriteValue>(value: ChoiceStructType<T>) -> Seq<u8> {
    match value.spec_choice_type() {
        Some(choice_type) => spec_choice_pod::<T>(choice_type, value.spec_values()),
        None => spec_primitive_pod::<T>(value.spec_values()[0]),
    }
}

impl<T: WriteValue> WritePod for PodChoiceRef<T> {
    open spec fn spec_writable(value: Self::Value) -> bool {
        spec_choice_writable::<T>(value.spec_values().len())
    }

    open spec fn spec_pod_bytes(value: Self::Value) -> Seq<u8> {
        spec_choice_struct_pod::<T>(value)
    }

    proof fn lemma_pod_bytes(value: Self::Value) {
        lemma_choice_struct_roundtrip::<T>(value);
    }

    fn write_pod(buffer: &mut Vec<u8>, value: &Self::Value) -> PodResult<()> {
        match value {
            ChoiceStructType::NONE(v) => PodNoneRef::<T>::write_pod(buffer, v),
            ChoiceStructType::RANGE(v) => PodRangeRef::<T>::write_pod(buffer, v),
            ChoiceStructType::STEP(v) => PodStepRef::<T>::write_pod(buffer, v),
            ChoiceStructType::ENUM(v) => PodEnumRef::<T>::write_pod(buffer, v),
            ChoiceStructType::FLAGS(v) => PodFlagsRef::<T>::write_pod(buffer, v),
            ChoiceStructType::VALUE(v) => write_primitive_pod::<T>(buffer, v),
        }
    }
}

/// Value of a choice pod whose element kind is only known at run time.
pub enum ChoiceValueType {
    BOOL(ChoiceStructType<PodBoolRef>),
    ID(ChoiceStructType<PodIdRef>),
    INT(ChoiceStructType<PodIntRef>),
    LONG(ChoiceStructType<PodLongRef>),
    FLOAT(ChoiceStructType<PodFloatRef>),
    DOUBLE(ChoiceStructType<PodDoubleRef>),
    RECTANGLE(ChoiceStructType<PodRectangleRef>),
    FRACTION(ChoiceStructType<PodFractionRef>),
}

/// The element type of the pod `pod` read as a choice: the child type of a choice pod,
/// or the type of a plain pod.
pub open spec fn spec_choice_element_type(pod: Seq<u8>) -> u32 {
    if spec_pod_type(pod) == Type::CHOICE {
        spec_choice_child_type(pod)
    } else {
        spec_pod_type(pod)
    }
}

/// Whether the pod `pod` can be read as a choice of its element kind.
pub open spec fn spec_choice_value_readable(pod: Seq<u8>) -> bool {
    (spec_pod_type(pod) == Type::CHOICE ==> spec_has_choice_body(pod)) &&
        (spec_choice_element_type(pod) == Type::BOOL ==> spec_choice_readable::<PodBoolRef>(pod)) &&
        (spec_choice_element_type(pod) == Type::ID ==> spec_choice_readable::<PodIdRef>(pod)) &&
        (spec_choice_element_type(pod) == Type::INT ==> spec_choice_readable::<PodIntRef>(pod)) &&
        (spec_choice_element_type(pod) == Type::LONG ==> spec_choice_readable::<PodLongRef>(pod)) &&
        (spec_choice_element_type(pod) == Type::FLOAT ==> spec_choice_readable::<PodFloatRef>(pod)) &&
        (spec_choice_element_type(pod) == Type::DOUBLE ==> spec_choice_readable::<PodDoubleRef>(pod)) &&
        (spec_choice_element_type(pod) == Type::RECTANGLE ==> spec_choice_readable::<PodRectangleRef>(pod)) &&
        (spec_choice_element_type(pod) == Type::FRACTION ==> spec_choice_readable::<PodFractionRef>(pod))
}

/// Whether `r` is the outcome of reading the pod `pod` as a choice of its element kind.
pub open spec fn spec_choice_value_result(r: PodResult<ChoiceValueType>, pod: Seq<u8>) -> bool {
    &&& spec_choice_element_type(pod) == Type::BOOL ==> match spec_choice_struct_value::<PodBoolRef>(pod) {
        Ok((choice_type, values)) => r matches Ok(ChoiceValueType::BOOL(c)) && c.spec_choice_type()
            == choice_type && c.spec_values() == values,
        Err(e) => r == Err::<ChoiceValueType, PodError>(e),
    }
    &&& spec_choice_element_type(pod) == Type::ID ==> match spec_choice_struct_value::<PodIdRef>(pod) {
        Ok((choice_type, values)) => r matches Ok(ChoiceValueType::ID(c)) && c.spec_choice_type()
            == choice_type && c.spec_values() == values,
        Err(e) => r == Err::<ChoiceValueType, PodError>(e),
    }
    &&& spec_choice_element_type(pod) == Type::INT ==> match spec_choice_struct_value::<PodIntRef>(pod) {
        Ok((choice_type, values)) => r matches Ok(ChoiceValueType::INT(c)) && c.spec_choice_type()
            == choice_type && c.spec_values() == values,
        Err(e) => r == Err::<ChoiceValueType, PodError>(e),
    }
    &&& spec_choice_element_type(pod) == Type::LONG ==> match spec_choice_struct_value::<PodLongRef>(pod) {
        Ok((choice_type, values)) => r matches Ok(ChoiceValueType::LONG(c)) && c.spec_choice_type()
            == choice_type && c.spec_values() == values,
        Err(e) => r == Err::<ChoiceValueType, PodError>(e),
    }
    &&& spec_choice_element_type(pod) == Type::FLOAT ==> match spec_choice_struct_value::<PodFloatRef>(pod) {
        Ok((choice_type, values)) => r matches Ok(ChoiceValueType::FLOAT(c)) && c.spec_choice_type()
            == choice_type && c.spec_values() == values,
        Err(e) => r == Err::<ChoiceValueType, PodError>(e),
    }
    &&& spec_choice_element_type(pod) == Type::DOUBLE ==> match spec_choice_struct_value::<PodDoubleRef>(pod) {
        Ok((choice_type, values)) => r matches Ok(ChoiceValueType::DOUBLE(c)) && c.spec_choice_type()
            == choice_type && c.spec_values() == values,
        Err(e) => r == Err::<ChoiceValueType, PodError>(e),
    }
    &&& spec_choice_element_type(pod) == Type::RECTANGLE ==> match spec_choice_struct_value::<PodRectangleRef>(pod) {
        Ok((choice_type, values)) => r matches Ok(ChoiceValueType::RECTANGLE(c)) && c.spec_choice_type()
            == choice_type && c.spec_values() == values,
        Err(e) => r == Err::<ChoiceValueType, PodError>(e),
    }
    &&& spec_choice_element_type(pod) == Type::FRACTION ==> match spec_choice_struct_value::<PodFractionRef>(pod) {
        Ok((choice_type, values)) => r matches Ok(ChoiceValueType::FRACTION(c)) && c.spec_choice_type()
            == choice_type && c.spec_values() == values,
        Err(e) => r == Err::<ChoiceValueType, PodError>(e),
    }
    &&& (spec_choice_element_type(pod) != Type::BOOL && spec_choice_element_type(pod) != Type::ID && spec_choice_element_type(pod) != Type::INT && spec_choice_element_type(pod) != Type::LONG && spec_choice_element_type(pod) != Type::FLOAT && spec_choice_element_type(pod) != Type::DOUBLE && spec_choice_element_type(pod) != Type::RECTANGLE && spec_choice_element_type(pod) != Type::FRACTION) ==> r == Err::<ChoiceValueType, PodError>(
        PodError::UnsupportedChoiceElementType,
    )
}

/// Whether the pod `pod` can be read as a choice of the element kind it records.
pub fn choice_value_readable(pod: &PodRef) -> (r: bool)
    ensures
        r == spec_choice_value_readable(pod@),
{
    let is_choice = pod.type_() == Type::CHOICE;
    if is_choice && pod.size() < CHOICE_BODY_SIZE as u32 {
        return false;
    }
    let element_type = if is_choice {
        read_u32(pod.as_bytes(), 20)
    } else {
        pod.type_()
    };
    if element_type == Type::BOOL {
        PodChoiceRef::<PodBoolRef>::readable(pod)
    } else if element_type == Type::ID {
        PodChoiceRef::<PodIdRef>::readable(pod)
    } else if element_type == Type::INT {
        PodChoiceRef::<PodIntRef>::readable(pod)
    } else if element_type == Type::LONG {
        PodChoiceRef::<PodLongRef>::readable(pod)
    } else if element_type == Type::FLOAT {
        PodChoiceRef::<PodFloatRef>::readable(pod)
    } else if element_type == Type::DOUBLE {
        PodChoiceRef::<PodDoubleRef>::readable(pod)
    } else if element_type == Type::RECTANGLE {
        PodChoiceRef::<PodRectangleRef>::readable(pod)
    } else if element_type == Type::FRACTION {
        PodChoiceRef::<PodFractionRef>::readable(pod)
    } else {
        true
    }
}

/// Read the pod `pod` as a choice of the element kind it records.
pub fn choice_value(pod: &PodRef) -> (r: PodResult<ChoiceValueType>)
    requires
        spec_choice_value_readable(pod@),
    ensures
        spec_choice_value_result(r, pod@),
{
    let element_type = if pod.type_() == Type::CHOICE {
        read_u32(pod.as_bytes(), 20)
    } else {
        pod.type_()
    };
    if element_type == Type::BOOL {
        let r = match PodChoiceRef::<PodBoolRef>::value(pod) {
            Ok(c) => Ok(ChoiceValueType::BOOL(c)),
            Err(e) => Err(e),
        };
        return r;
    }
    if element_type == Type::ID {
        let r = match PodChoiceRef::<PodIdRef>::value(pod) {
            Ok(c) => Ok(ChoiceValueType::ID(c)),
            Err(e) => Err(e),
        };
        return r;
    }
    if element_type == Type::INT {
        let r = match PodChoiceRef::<PodIntRef>::value(pod) {
            Ok(c) => Ok(ChoiceValueType::INT(c)),
            Err(e) => Err(e),
        };
        return r;
    }
    if element_type == Type::LONG {
        let r = match PodChoiceRef::<PodLongRef>::value(pod) {
            Ok(c) => Ok(ChoiceValueType::LONG(c)),
            Err(e) => Err(e),
        };
        return r;
    }
    if element_type == Type::FLOAT {
        let r = match PodChoiceRef::<PodFloatRef>::value(pod) {
            Ok(c) => Ok(ChoiceValueType::FLOAT(c)),
            Err(e) => Err(e),
        };
        return r;
    }
    if element_type == Type::DOUBLE {
        let r = match PodChoiceRef::<PodDoubleRef>::value(pod) {
            Ok(c) => Ok(ChoiceValueType::DOUBLE(c)),
            Err(e) => Err(e),
        };
        return r;
    }
    if element_type == Type::RECTANGLE {
        let r = match PodChoiceRef::<PodRectangleRef>::value(pod) {
            Ok(c) => Ok(ChoiceValueType::RECTANGLE(c)),
            Err(e) => Err(e),
        };
        return r;
    }
    if element_type == Type::FRACTION {
        let r = match PodChoiceRef::<PodFractionRef>::value(pod) {
            Ok(c) => Ok(ChoiceValueType::FRACTION(c)),
            Err(e) => Err(e),
        };
        return r;
    }
    Err(PodError::UnsupportedChoiceElementType)
}

/// Whether the choice `value` can be written.
pub open spec fn spec_choice_value_writable(value: ChoiceValueType) -> bool {
    match value {
        ChoiceValueType::BOOL(v) => <PodChoiceRef<PodBoolRef> as WritePod>::spec_writable(v),
        ChoiceValueType::ID(v) => <PodChoiceRef<PodIdRef> as WritePod>::spec_writable(v),
        ChoiceValueType::INT(v) => <PodChoiceRef<PodIntRef> as WritePod>::spec_writable(v),
        ChoiceValueType::LONG(v) => <PodChoiceRef<PodLongRef> as WritePod>::spec_writable(v),
        ChoiceValueType::FLOAT(v) => <PodChoiceRef<PodFloatRef> as WritePod>::spec_writable(v),
        ChoiceValueType::DOUBLE(v) => <PodChoiceRef<PodDoubleRef> as WritePod>::spec_writable(v),
        ChoiceValueType::RECTANGLE(v) => <PodChoiceRef<PodRectangleRef> as WritePod>::spec_writable(v),
        ChoiceValueType::FRACTION(v) => <PodChoiceRef<PodFractionRef> as WritePod>::spec_writable(v),
    }
}

/// The pod holding the choice `value`, without padding.
pub open spec fn spec_choice_value_pod(value: ChoiceValueType) -> Seq<u8> {
    match value {
        ChoiceValueType::BOOL(v) => <PodChoiceRef<PodBoolRef> as WritePod>::spec_pod_bytes(v),
        ChoiceValueType::ID(v) => <PodChoiceRef<PodIdRef> as WritePod>::spec_pod_bytes(v),
        ChoiceValueType::INT(v) => <PodChoiceRef<PodIntRef> as WritePod>::spec_pod_bytes(v),
        ChoiceValueType::LONG(v) => <PodChoiceRef<PodLongRef> as WritePod>::spec_pod_bytes(v),
        ChoiceValueType::FLOAT(v) => <PodChoiceRef<PodFloatRef> as WritePod>::spec_pod_bytes(v),
        ChoiceValueType::DOUBLE(v) => <PodChoiceRef<PodDoubleRef> as WritePod>::spec_pod_bytes(v),
        ChoiceValueType::RECTANGLE(v) => <PodChoiceRef<PodRectangleRef> as WritePod>::spec_pod_bytes(v),
        ChoiceValueType::FRACTION(v) => <PodChoiceRef<PodFractionRef> as WritePod>::spec_pod_bytes(v),
    }
}

/// Write the pod holding the choice `value`, followed by the padding.
pub fn write_choice_value(buffer: &mut Vec<u8>, value: &ChoiceValueType) -> (r: PodResult<()>)
    requires
        spec_choice_value_writable(*value),
    ensures
        old(buffer)@.len() % (POD_ALIGN as nat) == 0 ==> r == Ok::<(), PodError>(())
            && final(buffer)@ == old(buffer)@ + spec_choice_value_pod(*value) + spec_padding(
            spec_choice_value_pod(*value).len(),
        ),
        old(buffer)@.len() % (POD_ALIGN as nat) != 0 ==> r == Err::<(), PodError>(
            PodError::PodIsNotAligned,
        ) && final(buffer)@ == old(buffer)@,
{
    match value {
        ChoiceValueType::BOOL(v) => PodChoiceRef::<PodBoolRef>::write_pod(buffer, v),
        ChoiceValueType::ID(v) => PodChoiceRef::<PodIdRef>::write_pod(buffer, v),
        ChoiceValueType::INT(v) => PodChoiceRef::<PodIntRef>::write_pod(buffer, v),
        ChoiceValueType::LONG(v) => PodChoiceRef::<PodLongRef>::write_pod(buffer, v),
        ChoiceValueType::FLOAT(v) => PodChoiceRef::<PodFloatRef>::write_pod(buffer, v),
        ChoiceValueType::DOUBLE(v) => PodChoiceRef::<PodDoubleRef>::write_pod(buffer, v),
        ChoiceValueType::RECTANGLE(v) => PodChoiceRef::<PodRectangleRef>::write_pod(buffer, v),
        ChoiceValueType::FRACTION(v) => PodChoiceRef::<PodFractionRef>::write_pod(buffer, v),
    }
}

/// The fields of a written choice pod are read back.
pub proof fn lemma_choice_pod_fields<T: WriteValue>(choice_type: u32, values: Seq<T::Value>)
    requires
        spec_choice_writable::<T>(values.len()),
    ensures
        ({
            let pod = spec_choice_pod::<T>(choice_type, values);
            &&& crate::spa::pod::spec_is_pod(pod)
            &&& spec_pod_type(pod) == Type::CHOICE
            &&& spec_pod_body_size(pod) == CHOICE_BODY_SIZE + values.len() * T::spec_raw_size()
            &&& spec_has_choice_body(pod)
            &&& spec_choice_type(pod) == choice_type
            &&& spec_choice_flags(pod) == 0
            &&& spec_choice_child_size(pod) == T::spec_raw_size()
            &&& spec_choice_child_type(pod) == T::spec_static_type()
            &&& spec_choice_content(pod) == spec_encode_all::<T>(values)
        }),
{
    let size = (CHOICE_BODY_SIZE + values.len() * T::spec_raw_size()) as u32;
    let raw = T::spec_raw_size() as u32;
    let ty = T::spec_static_type();
    let enc = spec_encode_all::<T>(values);
    let pod = spec_choice_pod::<T>(choice_type, values);
    T::lemma_kind();
    let h = spec_header(size, Type::CHOICE);
    let b0 = spec_le_u32(choice_type);
    let b1 = spec_le_u32(0);
    let b2 = spec_le_u32(raw);
    let b3 = spec_le_u32(ty);
    lemma_le_u32(choice_type);
    lemma_le_u32(0);
    lemma_le_u32(raw);
    lemma_le_u32(ty);
    lemma_encode_all_len::<T>(values);
    lemma_header(size, Type::CHOICE, b0 + b1 + b2 + b3 + enc);
    assert(pod =~= h + (b0 + b1 + b2 + b3 + enc));
    lemma_read_u32(h, choice_type, b1 + b2 + b3 + enc);
    assert(pod =~= h + b0 + (b1 + b2 + b3 + enc));
    lemma_read_u32(h + b0, 0, b2 + b3 + enc);
    assert(pod =~= h + b0 + b1 + (b2 + b3 + enc));
    lemma_read_u32(h + b0 + b1, raw, b3 + enc);
    assert(pod =~= h + b0 + b1 + b2 + (b3 + enc));
    lemma_read_u32(h + b0 + b1 + b2, ty, enc);
    assert(pod =~= h + b0 + b1 + b2 + b3 + enc);
    assert(spec_choice_content(pod) =~= enc);
    T::lemma_kind();
}

/// Reading a written choice pod gives its elements back.
pub proof fn lemma_choice_values_roundtrip<T: WriteValue>(choice_type: u32, values: Seq<T::Value>)
    requires
        spec_choice_writable::<T>(values.len()),
    ensures
        spec_choice_values::<T>(spec_choice_pod::<T>(choice_type, values), choice_type) == Ok::<
            Seq<T::Value>,
            PodError,
        >(values),
{
    lemma_choice_pod_fields::<T>(choice_type, values);
    lemma_elements_of_encoding::<T>(values);
}

/// Reading a written choice gives its choice type and its elements back.
pub proof fn lemma_choice_struct_roundtrip<T: WriteValue>(value: ChoiceStructType<T>)
    requires
        spec_choice_writable::<T>(value.spec_values().len()),
    ensures
        crate::spa::pod::spec_is_pod(spec_choice_struct_pod::<T>(value)),
        spec_choice_readable::<T>(spec_choice_struct_pod::<T>(value)),
        spec_choice_struct_value::<T>(spec_choice_struct_pod::<T>(value)) == Ok::<
            (Option<u32>, Seq<T::Value>),
            PodError,
        >((value.spec_choice_type(), value.spec_values())),
{
    T::lemma_kind();
    match value {
        ChoiceStructType::VALUE(v) => {
            crate::spa::pod::lemma_primitive_roundtrip::<T>(v);
        },
        _ => {
            let choice_type = value.spec_choice_type().unwrap();
            let values = value.spec_values();
            lemma_choice_pod_fields::<T>(choice_type, values);
            lemma_choice_values_roundtrip::<T>(choice_type, values);
            match value {
                ChoiceStructType::RANGE(v) => v.lemma_values_len(),
                ChoiceStructType::STEP(v) => v.lemma_values_len(),
                _ => {},
            }
        },
    }
}

} // verus!

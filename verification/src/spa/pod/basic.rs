//! The value of a pod of any basic kind, read and written according to the pod type.
use vstd::prelude::*;

use crate::spa::pod::array::{
    lemma_array_roundtrip, spec_array_child_size, spec_array_content, PodArrayRef,
    ARRAY_BODY_SIZE,
};
use crate::spa::pod::bytes::{lemma_raw_bytes_pod, spec_raw_bytes_pod, write_raw_bytes_pod};
use crate::spa::pod::choice::{
    choice_value, spec_choice_value_pod, spec_choice_value_readable, spec_choice_value_result,
    spec_choice_value_writable, spec_elements, write_choice_value, ChoiceValueType,
};
use crate::spa::pod::control::PodControlIterator;
use crate::spa::pod::id::PodIdRef;
use crate::spa::pod::iterator::{spec_pods, PodIterator, PodValueIterator};
use crate::spa::pod::object::prop_core::spec_props;
use crate::spa::pod::object::{
    lemma_object_roundtrip, lemma_object_value_roundtrip, spec_object_body_id,
    spec_object_body_type, spec_object_content, spec_object_kind, ObjectType, PodObjectRef,
    OBJECT_BODY_SIZE, OBJECT_ENUM_FORMAT_KIND,
};
use crate::spa::pod::pointer::{PodPointerRef, POINTER_BODY_SIZE};
use crate::spa::pod::restricted::{
    lemma_header, spec_header, spec_padding, spec_pod_type, spec_read_u64, write_header, WritePod,
};
use crate::spa::pod::sequence::{spec_sequence_content, PodSequenceRef};
use crate::spa::pod::string::{
    lemma_string_roundtrip, spec_c_string_of, spec_no_nul, spec_string_pod, write_string_pod,
    PodStringRef,
};
use crate::spa::pod::struct_::{lemma_struct_roundtrip, PodStructRef};
use crate::spa::pod::{
    lemma_primitive_roundtrip, primitive_value, spec_is_basic_type, spec_is_pod, spec_pod_body, spec_primitive_pod, spec_primitive_value,
    write_primitive_pod, BasicType, PodBoolRef, PodDoubleRef, PodError, PodFdRef, PodFloatRef,
    PodIntRef, PodLongRef, PodRectangleRef, PodFractionRef, PodRef, PodResult, POD_ALIGN,
};
use crate::spa::type_::{FractionRef, RectangleRef, Type};

verus! {

/// The value of a pod of any basic kind.
#[allow(non_camel_case_types)]
pub enum BasicTypeValue<'a> {
    NONE,
    BOOL(bool),
    ID(u32),
    INT(i32),
    LONG(i64),
    /// The IEEE-754 bit pattern of the single precision float.
    FLOAT(u32),
    /// The IEEE-754 bit pattern of the double precision float.
    DOUBLE(u64),
    /// The string, without its NUL terminator.
    STRING(&'a [u8]),
    /// The bytes of the body.
    BYTES(&'a [u8]),
    RECTANGLE(RectangleRef),
    FRACTION(FractionRef),
    /// The bytes of the body.
    BITMAP(&'a [u8]),
    /// The elements, as generic raw elements.
    ARRAY(PodValueIterator<'a, PodRef<'a>>),
    /// The fields.
    STRUCT(PodIterator<'a>),
    /// The typed props.
    OBJECT(ObjectType<'a>),
    /// The controls.
    SEQUENCE(PodControlIterator<'a>),
    /// The address.
    POINTER(u64),
    /// The file descriptor.
    FD(i32),
    CHOICE(ChoiceValueType),
    /// A generic pod; not produced by reading.
    POD(PodRef<'a>),
}

/// Whether the pod `pod` holds enough of its body to be read according to its type:
/// a string body ends somewhere, array and object bodies hold their headers, a pointer body
/// holds the pointer, and a choice can be read.
pub open spec fn spec_value_readable(pod: Seq<u8>) -> bool {
    let t = spec_pod_type(pod);
    let body = spec_pod_body(pod);
    &&& t == Type::STRING ==> body.len() > 0
    &&& t == Type::ARRAY ==> body.len() >= ARRAY_BODY_SIZE
    &&& t == Type::OBJECT ==> body.len() >= OBJECT_BODY_SIZE
    &&& t == Type::POINTER ==> body.len() >= POINTER_BODY_SIZE
    &&& t == Type::CHOICE ==> spec_choice_value_readable(pod)
}

/// Whether `r` is the outcome of reading the pod `pod` according to its type.
pub open spec fn spec_value_result<'a>(r: PodResult<BasicTypeValue<'a>>, pod: Seq<u8>) -> bool {
    let t = spec_pod_type(pod);
    let body = spec_pod_body(pod);
    &&& t == Type::NONE ==> (r matches Ok(BasicTypeValue::NONE))
    &&& t == Type::BOOL ==> match spec_primitive_value::<PodBoolRef>(pod) {
        Ok(x) => r == Ok::<BasicTypeValue<'a>, PodError>(BasicTypeValue::BOOL(x)),
        Err(e) => r == Err::<BasicTypeValue<'a>, PodError>(e),
    }
    &&& t == Type::ID ==> match spec_primitive_value::<PodIdRef>(pod) {
        Ok(x) => r == Ok::<BasicTypeValue<'a>, PodError>(BasicTypeValue::ID(x)),
        Err(e) => r == Err::<BasicTypeValue<'a>, PodError>(e),
    }
    &&& t == Type::INT ==> match spec_primitive_value::<PodIntRef>(pod) {
        Ok(x) => r == Ok::<BasicTypeValue<'a>, PodError>(BasicTypeValue::INT(x)),
        Err(e) => r == Err::<BasicTypeValue<'a>, PodError>(e),
    }
    &&& t == Type::LONG ==> match spec_primitive_value::<PodLongRef>(pod) {
        Ok(x) => r == Ok::<BasicTypeValue<'a>, PodError>(BasicTypeValue::LONG(x)),
        Err(e) => r == Err::<BasicTypeValue<'a>, PodError>(e),
    }
    &&& t == Type::FLOAT ==> match spec_primitive_value::<PodFloatRef>(pod) {
        Ok(x) => r == Ok::<BasicTypeValue<'a>, PodError>(BasicTypeValue::FLOAT(x)),
        Err(e) => r == Err::<BasicTypeValue<'a>, PodError>(e),
    }
    &&& t == Type::DOUBLE ==> match spec_primitive_value::<PodDoubleRef>(pod) {
        Ok(x) => r == Ok::<BasicTypeValue<'a>, PodError>(BasicTypeValue::DOUBLE(x)),
        Err(e) => r == Err::<BasicTypeValue<'a>, PodError>(e),
    }
    &&& t == Type::RECTANGLE ==> match spec_primitive_value::<PodRectangleRef>(pod) {
        Ok(x) => r == Ok::<BasicTypeValue<'a>, PodError>(BasicTypeValue::RECTANGLE(x)),
        Err(e) => r == Err::<BasicTypeValue<'a>, PodError>(e),
    }
    &&& t == Type::FRACTION ==> match spec_primitive_value::<PodFractionRef>(pod) {
        Ok(x) => r == Ok::<BasicTypeValue<'a>, PodError>(BasicTypeValue::FRACTION(x)),
        Err(e) => r == Err::<BasicTypeValue<'a>, PodError>(e),
    }
    &&& t == Type::FD ==> match spec_primitive_value::<PodFdRef>(pod) {
        Ok(x) => r == Ok::<BasicTypeValue<'a>, PodError>(BasicTypeValue::FD(x)),
        Err(e) => r == Err::<BasicTypeValue<'a>, PodError>(e),
    }
    &&& t == Type::STRING ==> if body.last() == 0 {
        r matches Ok(BasicTypeValue::STRING(s)) && spec_c_string_of(body, s@)
    } else {
        r == Err::<BasicTypeValue<'a>, PodError>(PodError::StringIsNotNullTerminated)
    }
    &&& t == Type::BYTES ==> (r matches Ok(BasicTypeValue::BYTES(b)) && b@ == body)
    &&& t == Type::BITMAP ==> (r matches Ok(BasicTypeValue::BITMAP(b)) && b@ == body)
    &&& t == Type::ARRAY ==> (r matches Ok(BasicTypeValue::ARRAY(iter)) && iter.spec_content()
        == spec_array_content(body) && iter.spec_element_size() == spec_array_child_size(body)
        && iter.spec_remaining() == spec_elements::<PodRef<'a>>(
        spec_array_content(body),
        spec_array_child_size(body) as nat,
    ))
    &&& t == Type::STRUCT ==> (r matches Ok(BasicTypeValue::STRUCT(iter)) && iter.spec_content()
        == body && iter.spec_remaining() == spec_pods(body))
    &&& t == Type::OBJECT ==> match spec_object_kind(
        spec_object_body_type(body),
        spec_object_body_id(body),
    ) {
        None => r == Err::<BasicTypeValue<'a>, PodError>(
            PodError::UnexpectedObjectType(spec_object_body_type(body)),
        ),
        Some(kind) => r matches Ok(BasicTypeValue::OBJECT(v)) && v.spec_kind() == kind
            && v.spec_content() == spec_object_content(body) && v.spec_remaining() == spec_props(
            spec_object_content(body),
        ),
    }
    &&& t == Type::SEQUENCE ==> (r matches Ok(BasicTypeValue::SEQUENCE(iter))
        && iter.spec_content() == spec_sequence_content(body) && iter.spec_remaining()
        == spec_props(spec_sequence_content(body)))
    &&& t == Type::POINTER ==> r == Ok::<BasicTypeValue<'a>, PodError>(
        BasicTypeValue::POINTER(spec_read_u64(body, 8)),
    )
    &&& t == Type::CHOICE ==> ((r matches Ok(BasicTypeValue::CHOICE(c))
        && spec_choice_value_result(Ok(c), pod)) || (r matches Err(e) && spec_choice_value_result(
        Err(e),
        pod,
    )))
    &&& (t == Type::POD || !spec_is_basic_type(t)) ==> r == Err::<BasicTypeValue<'a>, PodError>(
        PodError::UnknownPodTypeToDowncast,
    )
}

impl<'a> PodRef<'a> {
    /// The value of the pod, read according to its type.
    pub fn value(&self) -> (r: PodResult<BasicTypeValue<'a>>)
        requires
            spec_value_readable(self@),
        ensures
            spec_value_result(r, self@),
    {
        let pod = self.downcast()?;
        match pod {
            BasicType::NONE => Ok(BasicTypeValue::NONE),
            BasicType::BOOL(p) => match primitive_value::<PodBoolRef>(&p) {
                Ok(v) => Ok(BasicTypeValue::BOOL(v)),
                Err(e) => Err(e),
            },
            BasicType::ID(p) => match primitive_value::<PodIdRef>(&p) {
                Ok(v) => Ok(BasicTypeValue::ID(v)),
                Err(e) => Err(e),
            },
            BasicType::INT(p) => match primitive_value::<PodIntRef>(&p) {
                Ok(v) => Ok(BasicTypeValue::INT(v)),
                Err(e) => Err(e),
            },
            BasicType::LONG(p) => match primitive_value::<PodLongRef>(&p) {
                Ok(v) => Ok(BasicTypeValue::LONG(v)),
                Err(e) => Err(e),
            },
            BasicType::FLOAT(p) => match primitive_value::<PodFloatRef>(&p) {
                Ok(v) => Ok(BasicTypeValue::FLOAT(v)),
                Err(e) => Err(e),
            },
            BasicType::DOUBLE(p) => match primitive_value::<PodDoubleRef>(&p) {
                Ok(v) => Ok(BasicTypeValue::DOUBLE(v)),
                Err(e) => Err(e),
            },
            BasicType::STRING(p) => match PodStringRef::value(&p) {
                Ok(v) => Ok(BasicTypeValue::STRING(v)),
                Err(e) => Err(e),
            },
            BasicType::BYTES(p) => Ok(BasicTypeValue::BYTES(p.body())),
            BasicType::RECTANGLE(p) => match primitive_value::<PodRectangleRef>(&p) {
                Ok(v) => Ok(BasicTypeValue::RECTANGLE(v)),
                Err(e) => Err(e),
            },
            BasicType::FRACTION(p) => match primitive_value::<PodFractionRef>(&p) {
                Ok(v) => Ok(BasicTypeValue::FRACTION(v)),
                Err(e) => Err(e),
            },
            BasicType::BITMAP(p) => Ok(BasicTypeValue::BITMAP(p.body())),
            BasicType::ARRAY(p) => match PodArrayRef::<PodRef<'a>>::value(&p) {
                Ok(v) => Ok(BasicTypeValue::ARRAY(v)),
                Err(e) => Err(e),
            },
            BasicType::STRUCT(p) => match PodStructRef::value(&p) {
                Ok(v) => Ok(BasicTypeValue::STRUCT(v)),
                Err(e) => Err(e),
            },
            BasicType::OBJECT(p) => match PodObjectRef::value(&p) {
                Ok(v) => Ok(BasicTypeValue::OBJECT(v)),
                Err(e) => Err(e),
            },
            BasicType::SEQUENCE(p) => match PodSequenceRef::value(&p) {
                Ok(v) => Ok(BasicTypeValue::SEQUENCE(v)),
                Err(e) => Err(e),
            },
            BasicType::POINTER(p) => match PodPointerRef::value(&p) {
                Ok(v) => Ok(BasicTypeValue::POINTER(v)),
                Err(e) => Err(e),
            },
            BasicType::FD(p) => match primitive_value::<PodFdRef>(&p) {
                Ok(v) => Ok(BasicTypeValue::FD(v)),
                Err(e) => Err(e),
            },
            BasicType::CHOICE(p) => match choice_value(&p) {
                Ok(v) => Ok(BasicTypeValue::CHOICE(v)),
                Err(e) => Err(e),
            },
            BasicType::POD(_) => Err(PodError::UnknownPodTypeToDowncast),
        }
    }

    /// Write the pod holding `value`, followed by the padding. The `buffer` must be aligned.
    /// A generic pod value cannot be written.
    pub fn write_pod(buffer: &mut Vec<u8>, value: &BasicTypeValue<'a>) -> (r: PodResult<()>)
        requires
            spec_value_writable(*value),
        ensures
            value is POD ==> r == Err::<(), PodError>(PodError::UnknownPodTypeToDowncast)
                && final(buffer)@ == old(buffer)@,
            !(value is POD) && old(buffer)@.len() % (POD_ALIGN as nat) == 0 ==> r == Ok::<
                (),
                PodError,
            >(()) && final(buffer)@ == old(buffer)@ + spec_value_pod(*value) + spec_padding(
                spec_value_pod(*value).len(),
            ),
            !(value is POD) && old(buffer)@.len() % (POD_ALIGN as nat) != 0 ==> r == Err::<
                (),
                PodError,
            >(PodError::PodIsNotAligned) && final(buffer)@ == old(buffer)@,
    {
        proof {
            lemma_header(0, Type::NONE, Seq::empty());
            assert(spec_padding(8) =~= Seq::<u8>::empty());
            assert(spec_header(0, Type::NONE) + Seq::<u8>::empty() =~= spec_header(0, Type::NONE));
        }
        match value {
            BasicTypeValue::NONE => write_header(buffer, 0, Type::NONE),
            BasicTypeValue::BOOL(x) => write_primitive_pod::<PodBoolRef>(buffer, x),
            BasicTypeValue::ID(x) => write_primitive_pod::<PodIdRef>(buffer, x),
            BasicTypeValue::INT(x) => write_primitive_pod::<PodIntRef>(buffer, x),
            BasicTypeValue::LONG(x) => write_primitive_pod::<PodLongRef>(buffer, x),
            BasicTypeValue::FLOAT(x) => write_primitive_pod::<PodFloatRef>(buffer, x),
            BasicTypeValue::DOUBLE(x) => write_primitive_pod::<PodDoubleRef>(buffer, x),
            BasicTypeValue::STRING(s) => write_string_pod(buffer, s),
            BasicTypeValue::BYTES(b) => write_raw_bytes_pod(buffer, Type::BYTES, b),
            BasicTypeValue::RECTANGLE(x) => write_primitive_pod::<PodRectangleRef>(buffer, x),
            BasicTypeValue::FRACTION(x) => write_primitive_pod::<PodFractionRef>(buffer, x),
            BasicTypeValue::BITMAP(b) => write_raw_bytes_pod(buffer, Type::BITMAP, b),
            BasicTypeValue::ARRAY(v) => <PodArrayRef<'a, PodRef<'a>> as WritePod>::write_pod(buffer, v),
            BasicTypeValue::STRUCT(v) => <PodStructRef<'a> as WritePod>::write_pod(buffer, v),
            BasicTypeValue::OBJECT(v) => <PodObjectRef<'a> as WritePod>::write_pod(buffer, v),
            BasicTypeValue::SEQUENCE(v) => <PodSequenceRef<'a> as WritePod>::write_pod(buffer, v),
            BasicTypeValue::POINTER(_) => vstd::pervasive::unreached(),
            BasicTypeValue::FD(x) => write_primitive_pod::<PodFdRef>(buffer, x),
            BasicTypeValue::CHOICE(c) => write_choice_value(buffer, c),
            BasicTypeValue::POD(_) => Err(PodError::UnknownPodTypeToDowncast),
        }
    }
}

/// Whether `value` can be written: its size fits the header, and it is not a pointer.
pub open spec fn spec_value_writable<'a>(value: BasicTypeValue<'a>) -> bool {
    match value {
        BasicTypeValue::NONE => true,
        BasicTypeValue::BOOL(_) => true,
        BasicTypeValue::ID(_) => true,
        BasicTypeValue::INT(_) => true,
        BasicTypeValue::LONG(_) => true,
        BasicTypeValue::FLOAT(_) => true,
        BasicTypeValue::DOUBLE(_) => true,
        BasicTypeValue::STRING(s) => s@.len() < u32::MAX,
        BasicTypeValue::BYTES(b) => b@.len() <= u32::MAX,
        BasicTypeValue::RECTANGLE(_) => true,
        BasicTypeValue::FRACTION(_) => true,
        BasicTypeValue::BITMAP(b) => b@.len() <= u32::MAX,
        BasicTypeValue::ARRAY(v) => <PodArrayRef<'a, PodRef<'a>> as WritePod>::spec_writable(v),
        BasicTypeValue::STRUCT(v) => <PodStructRef<'a> as WritePod>::spec_writable(v),
        BasicTypeValue::OBJECT(v) => <PodObjectRef<'a> as WritePod>::spec_writable(v),
        BasicTypeValue::SEQUENCE(v) => <PodSequenceRef<'a> as WritePod>::spec_writable(v),
        BasicTypeValue::POINTER(_) => false,
        BasicTypeValue::FD(_) => true,
        BasicTypeValue::CHOICE(c) => spec_choice_value_writable(c),
        BasicTypeValue::POD(_) => true,
    }
}

/// The pod holding `value`, without padding.
pub open spec fn spec_value_pod<'a>(value: BasicTypeValue<'a>) -> Seq<u8> {
    match value {
        BasicTypeValue::NONE => spec_header(0, Type::NONE),
        BasicTypeValue::BOOL(x) => spec_primitive_pod::<PodBoolRef>(x),
        BasicTypeValue::ID(x) => spec_primitive_pod::<PodIdRef>(x),
        BasicTypeValue::INT(x) => spec_primitive_pod::<PodIntRef>(x),
        BasicTypeValue::LONG(x) => spec_primitive_pod::<PodLongRef>(x),
        BasicTypeValue::FLOAT(x) => spec_primitive_pod::<PodFloatRef>(x),
        BasicTypeValue::DOUBLE(x) => spec_primitive_pod::<PodDoubleRef>(x),
        BasicTypeValue::STRING(s) => spec_string_pod(s@),
        BasicTypeValue::BYTES(b) => spec_raw_bytes_pod(Type::BYTES, b@),
        BasicTypeValue::RECTANGLE(x) => spec_primitive_pod::<PodRectangleRef>(x),
        BasicTypeValue::FRACTION(x) => spec_primitive_pod::<PodFractionRef>(x),
        BasicTypeValue::BITMAP(b) => spec_raw_bytes_pod(Type::BITMAP, b@),
        BasicTypeValue::ARRAY(v) => <PodArrayRef<'a, PodRef<'a>> as WritePod>::spec_pod_bytes(v),
        BasicTypeValue::STRUCT(v) => <PodStructRef<'a> as WritePod>::spec_pod_bytes(v),
        BasicTypeValue::OBJECT(v) => <PodObjectRef<'a> as WritePod>::spec_pod_bytes(v),
        BasicTypeValue::SEQUENCE(v) => <PodSequenceRef<'a> as WritePod>::spec_pod_bytes(v),
        BasicTypeValue::POINTER(_) => Seq::empty(),
        BasicTypeValue::FD(x) => spec_primitive_pod::<PodFdRef>(x),
        BasicTypeValue::CHOICE(c) => spec_choice_value_pod(c),
        BasicTypeValue::POD(_) => Seq::empty(),
    }
}

/// Reading the pod written for a value gives the value back: a primitive, the bytes of a
/// string without NUL or of a byte string, the elements of an array, the fields of a struct,
/// and the props of an object, which a format object is read back as an enumerated format
/// since the written body id is zero. Choices, sequences, pointers and generic pods are not
/// covered here.
pub proof fn lemma_value_roundtrip<'a>(v: BasicTypeValue<'a>, r: PodResult<BasicTypeValue<'a>>)
    requires
        spec_value_writable(v),
        v matches BasicTypeValue::STRING(s) ==> spec_no_nul(s@),
        spec_value_result(r, spec_value_pod(v)),
    ensures
        spec_is_pod(spec_value_pod(v)) || v is CHOICE || v is SEQUENCE || v is POINTER || v is POD,
        match v {
            BasicTypeValue::NONE => r matches Ok(BasicTypeValue::NONE),
            BasicTypeValue::BOOL(x) => r == Ok::<BasicTypeValue<'a>, PodError>(BasicTypeValue::BOOL(x)),
            BasicTypeValue::ID(x) => r == Ok::<BasicTypeValue<'a>, PodError>(BasicTypeValue::ID(x)),
            BasicTypeValue::INT(x) => r == Ok::<BasicTypeValue<'a>, PodError>(BasicTypeValue::INT(x)),
            BasicTypeValue::LONG(x) => r == Ok::<BasicTypeValue<'a>, PodError>(BasicTypeValue::LONG(x)),
            BasicTypeValue::FLOAT(x) => r == Ok::<BasicTypeValue<'a>, PodError>(BasicTypeValue::FLOAT(x)),
            BasicTypeValue::DOUBLE(x) => r == Ok::<BasicTypeValue<'a>, PodError>(BasicTypeValue::DOUBLE(x)),
            BasicTypeValue::RECTANGLE(x) => r == Ok::<BasicTypeValue<'a>, PodError>(BasicTypeValue::RECTANGLE(x)),
            BasicTypeValue::FRACTION(x) => r == Ok::<BasicTypeValue<'a>, PodError>(BasicTypeValue::FRACTION(x)),
            BasicTypeValue::FD(x) => r == Ok::<BasicTypeValue<'a>, PodError>(BasicTypeValue::FD(x)),
            BasicTypeValue::STRING(s) => r matches Ok(BasicTypeValue::STRING(t)) && t@ == s@,
            BasicTypeValue::BYTES(b) => r matches Ok(BasicTypeValue::BYTES(c)) && c@ == b@,
            BasicTypeValue::BITMAP(b) => r matches Ok(BasicTypeValue::BITMAP(c)) && c@ == b@,
            BasicTypeValue::ARRAY(it) => r matches Ok(BasicTypeValue::ARRAY(it2)) && it2.spec_content()
                == it.spec_content() && it2.spec_element_size() == it.spec_element_size(),
            BasicTypeValue::STRUCT(it) => r matches Ok(BasicTypeValue::STRUCT(it2)) && it2.spec_content()
                == it.spec_content(),
            BasicTypeValue::OBJECT(o) => r matches Ok(BasicTypeValue::OBJECT(o2)) && o2.spec_content()
                == o.spec_content() && o2.spec_kind() == if o.spec_body_type() == Type::OBJECT_FORMAT {
                OBJECT_ENUM_FORMAT_KIND
            } else {
                o.spec_kind()
            },
            _ => true,
        },
{
    let body = spec_pod_body(spec_value_pod(v));
    match v {
        BasicTypeValue::NONE => {
            lemma_header(0, Type::NONE, Seq::empty());
        },
        BasicTypeValue::BOOL(x) => {
            lemma_primitive_roundtrip::<PodBoolRef>(x);
        },
        BasicTypeValue::ID(x) => {
            lemma_primitive_roundtrip::<PodIdRef>(x);
        },
        BasicTypeValue::INT(x) => {
            lemma_primitive_roundtrip::<PodIntRef>(x);
        },
        BasicTypeValue::LONG(x) => {
            lemma_primitive_roundtrip::<PodLongRef>(x);
        },
        BasicTypeValue::FLOAT(x) => {
            lemma_primitive_roundtrip::<PodFloatRef>(x);
        },
        BasicTypeValue::DOUBLE(x) => {
            lemma_primitive_roundtrip::<PodDoubleRef>(x);
        },
        BasicTypeValue::RECTANGLE(x) => {
            lemma_primitive_roundtrip::<PodRectangleRef>(x);
        },
        BasicTypeValue::FRACTION(x) => {
            lemma_primitive_roundtrip::<PodFractionRef>(x);
        },
        BasicTypeValue::FD(x) => {
            lemma_primitive_roundtrip::<PodFdRef>(x);
        },
        BasicTypeValue::STRING(s) => {
            lemma_string_roundtrip(s@);
            assert(body.len() > 0);
        },
        BasicTypeValue::BYTES(b) => {
            lemma_raw_bytes_pod(Type::BYTES, b@);
        },
        BasicTypeValue::BITMAP(b) => {
            lemma_raw_bytes_pod(Type::BITMAP, b@);
        },
        BasicTypeValue::ARRAY(it) => {
            lemma_array_roundtrip(it.spec_content(), it.spec_element_size() as u32, Type::POD);
        },
        BasicTypeValue::STRUCT(it) => {
            lemma_struct_roundtrip(it.spec_content());
        },
        BasicTypeValue::OBJECT(o) => {
            lemma_object_value_roundtrip(o, 0);
            lemma_object_roundtrip(o.spec_body_type(), 0, o.spec_content());
        },
        _ => {},
    }
}

} // verus!

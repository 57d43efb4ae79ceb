//! Object pods: a body type and id, followed by props.
pub mod enum_format;
pub mod format;
pub mod param_buffers;
pub mod param_io;
pub mod param_latency;
pub mod param_meta;
pub mod param_port_config;
pub mod param_process_latency;
pub mod param_profile;
pub mod param_route;
pub mod profiler;
pub mod prop;
pub mod prop_core;
pub mod prop_info;

use std::marker::PhantomData;

use vstd::prelude::*;
use vstd::slice::slice_subrange;

use crate::spa::param::ParamType;
use crate::spa::pod::object::enum_format::ObjectEnumFormatType;
use crate::spa::pod::object::format::ObjectFormatType;
use crate::spa::pod::object::param_buffers::ParamBuffersType;
use crate::spa::pod::object::param_io::ParamIOType;
use crate::spa::pod::object::param_latency::ParamLatencyType;
use crate::spa::pod::object::param_meta::ParamMetaType;
use crate::spa::pod::object::param_port_config::ParamPortConfigType;
use crate::spa::pod::object::param_process_latency::ParamProcessLatencyType;
use crate::spa::pod::object::param_profile::ParamProfileType;
use crate::spa::pod::object::param_route::ParamRouteType;
use crate::spa::pod::object::profiler::ProfilerType;
use crate::spa::pod::object::prop::ObjectPropType;
use crate::spa::pod::object::prop_core::{spec_props, ObjectPropsIterator};
use crate::spa::pod::object::prop_info::ObjectPropInfoType;
use crate::spa::pod::pod_buf::{AllocatedData, PodBuf};
use crate::spa::pod::restricted::{
    lemma_header, lemma_le_u32, lemma_padding_shift, lemma_read_u32, read_u32, spec_header,
    spec_le_u32, spec_padding, spec_pod_type, spec_read_u32, write_align_padding, write_bytes,
    write_header, write_value, PodValue, WritePod,
};
use crate::spa::pod::{spec_is_pod, spec_pod_body, FromValue, PodError, PodRef, PodResult};
use crate::spa::type_::Type;

verus! {

/// Identifies the enumerated format variant of [ObjectType]: the last object type plus the
/// format object type.
pub const OBJECT_ENUM_FORMAT_KIND: u32 = Type::OBJECT_LAST + Type::OBJECT_FORMAT;

/// Size of the object body header: body type and body id.
pub const OBJECT_BODY_SIZE: usize = 8;

/// The value of an object pod: an iterator over its props, typed by the body type.
#[allow(non_camel_case_types)]
pub enum ObjectType<'a> {
    OBJECT_PROP_INFO(ObjectPropsIterator<'a, ObjectPropInfoType<'a>>),
    OBJECT_PROPS(ObjectPropsIterator<'a, ObjectPropType<'a>>),
    OBJECT_FORMAT(ObjectPropsIterator<'a, ObjectFormatType<'a>>),
    OBJECT_ENUM_FORMAT(ObjectPropsIterator<'a, ObjectEnumFormatType<'a>>),
    OBJECT_PARAM_BUFFERS(ObjectPropsIterator<'a, ParamBuffersType<'a>>),
    OBJECT_PARAM_META(ObjectPropsIterator<'a, ParamMetaType<'a>>),
    OBJECT_PARAM_IO(ObjectPropsIterator<'a, ParamIOType<'a>>),
    OBJECT_PARAM_PROFILE(ObjectPropsIterator<'a, ParamProfileType<'a>>),
    OBJECT_PARAM_PORT_CONFIG(ObjectPropsIterator<'a, ParamPortConfigType<'a>>),
    OBJECT_PARAM_ROUTE(ObjectPropsIterator<'a, ParamRouteType<'a>>),
    OBJECT_PROFILER(ObjectPropsIterator<'a, ProfilerType<'a>>),
    OBJECT_PARAM_LATENCY(ObjectPropsIterator<'a, ParamLatencyType<'a>>),
    OBJECT_PARAM_PROCESS_LATENCY(ObjectPropsIterator<'a, ParamProcessLatencyType<'a>>),
}

impl<'a> ObjectType<'a> {
    /// Identifies the variant: the body type, or, for enumerated formats, the last object
    /// type plus the format object type.
    pub open spec fn spec_kind(&self) -> u32 {
        match *self {
            ObjectType::OBJECT_PROP_INFO(_) => Type::OBJECT_PROP_INFO,
            ObjectType::OBJECT_PROPS(_) => Type::OBJECT_PROPS,
            ObjectType::OBJECT_FORMAT(_) => Type::OBJECT_FORMAT,
            ObjectType::OBJECT_ENUM_FORMAT(_) => OBJECT_ENUM_FORMAT_KIND,
            ObjectType::OBJECT_PARAM_BUFFERS(_) => Type::OBJECT_PARAM_BUFFERS,
            ObjectType::OBJECT_PARAM_META(_) => Type::OBJECT_PARAM_META,
            ObjectType::OBJECT_PARAM_IO(_) => Type::OBJECT_PARAM_IO,
            ObjectType::OBJECT_PARAM_PROFILE(_) => Type::OBJECT_PARAM_PROFILE,
            ObjectType::OBJECT_PARAM_PORT_CONFIG(_) => Type::OBJECT_PARAM_PORT_CONFIG,
            ObjectType::OBJECT_PARAM_ROUTE(_) => Type::OBJECT_PARAM_ROUTE,
            ObjectType::OBJECT_PROFILER(_) => Type::OBJECT_PROFILER,
            ObjectType::OBJECT_PARAM_LATENCY(_) => Type::OBJECT_PARAM_LATENCY,
            ObjectType::OBJECT_PARAM_PROCESS_LATENCY(_) => Type::OBJECT_PARAM_PROCESS_LATENCY,
        }
    }

    /// The body type that the value is written with.
    pub open spec fn spec_body_type(&self) -> u32 {
        match *self {
            ObjectType::OBJECT_PROP_INFO(_) => Type::OBJECT_PROP_INFO,
            ObjectType::OBJECT_PROPS(_) => Type::OBJECT_PROPS,
            ObjectType::OBJECT_FORMAT(_) => Type::OBJECT_FORMAT,
            ObjectType::OBJECT_ENUM_FORMAT(_) => Type::OBJECT_FORMAT,
            ObjectType::OBJECT_PARAM_BUFFERS(_) => Type::OBJECT_PARAM_BUFFERS,
            ObjectType::OBJECT_PARAM_META(_) => Type::OBJECT_PARAM_META,
            ObjectType::OBJECT_PARAM_IO(_) => Type::OBJECT_PARAM_IO,
            ObjectType::OBJECT_PARAM_PROFILE(_) => Type::OBJECT_PARAM_PROFILE,
            ObjectType::OBJECT_PARAM_PORT_CONFIG(_) => Type::OBJECT_PARAM_PORT_CONFIG,
            ObjectType::OBJECT_PARAM_ROUTE(_) => Type::OBJECT_PARAM_ROUTE,
            ObjectType::OBJECT_PROFILER(_) => Type::OBJECT_PROFILER,
            ObjectType::OBJECT_PARAM_LATENCY(_) => Type::OBJECT_PARAM_LATENCY,
            ObjectType::OBJECT_PARAM_PROCESS_LATENCY(_) => Type::OBJECT_PARAM_PROCESS_LATENCY,
        }
    }

    /// The props region of the iterator.
    pub open spec fn spec_content(&self) -> Seq<u8> {
        match *self {
            ObjectType::OBJECT_PROP_INFO(iter) => iter.spec_content(),
            ObjectType::OBJECT_PROPS(iter) => iter.spec_content(),
            ObjectType::OBJECT_FORMAT(iter) => iter.spec_content(),
            ObjectType::OBJECT_ENUM_FORMAT(iter) => iter.spec_content(),
            ObjectType::OBJECT_PARAM_BUFFERS(iter) => iter.spec_content(),
            ObjectType::OBJECT_PARAM_META(iter) => iter.spec_content(),
            ObjectType::OBJECT_PARAM_IO(iter) => iter.spec_content(),
            ObjectType::OBJECT_PARAM_PROFILE(iter) => iter.spec_content(),
            ObjectType::OBJECT_PARAM_PORT_CONFIG(iter) => iter.spec_content(),
            ObjectType::OBJECT_PARAM_ROUTE(iter) => iter.spec_content(),
            ObjectType::OBJECT_PROFILER(iter) => iter.spec_content(),
            ObjectType::OBJECT_PARAM_LATENCY(iter) => iter.spec_content(),
            ObjectType::OBJECT_PARAM_PROCESS_LATENCY(iter) => iter.spec_content(),
        }
    }

    /// The props still to be returned by the iterator.
    pub open spec fn spec_remaining(&self) -> Seq<Seq<u8>> {
        match *self {
            ObjectType::OBJECT_PROP_INFO(iter) => iter.spec_remaining(),
            ObjectType::OBJECT_PROPS(iter) => iter.spec_remaining(),
            ObjectType::OBJECT_FORMAT(iter) => iter.spec_remaining(),
            ObjectType::OBJECT_ENUM_FORMAT(iter) => iter.spec_remaining(),
            ObjectType::OBJECT_PARAM_BUFFERS(iter) => iter.spec_remaining(),
            ObjectType::OBJECT_PARAM_META(iter) => iter.spec_remaining(),
            ObjectType::OBJECT_PARAM_IO(iter) => iter.spec_remaining(),
            ObjectType::OBJECT_PARAM_PROFILE(iter) => iter.spec_remaining(),
            ObjectType::OBJECT_PARAM_PORT_CONFIG(iter) => iter.spec_remaining(),
            ObjectType::OBJECT_PARAM_ROUTE(iter) => iter.spec_remaining(),
            ObjectType::OBJECT_PROFILER(iter) => iter.spec_remaining(),
            ObjectType::OBJECT_PARAM_LATENCY(iter) => iter.spec_remaining(),
            ObjectType::OBJECT_PARAM_PROCESS_LATENCY(iter) => iter.spec_remaining(),
        }
    }

    /// The body type that the value is written with, and the props region.
    pub fn body_type_and_content(&self) -> (r: (u32, &'a [u8]))
        ensures
            r.0 == self.spec_body_type(),
            r.1@ == self.spec_content(),
    {
        match self {
            ObjectType::OBJECT_PROP_INFO(iter) => (Type::OBJECT_PROP_INFO, iter.as_bytes()),
            ObjectType::OBJECT_PROPS(iter) => (Type::OBJECT_PROPS, iter.as_bytes()),
            ObjectType::OBJECT_FORMAT(iter) => (Type::OBJECT_FORMAT, iter.as_bytes()),
            ObjectType::OBJECT_ENUM_FORMAT(iter) => (Type::OBJECT_FORMAT, iter.as_bytes()),
            ObjectType::OBJECT_PARAM_BUFFERS(iter) => (Type::OBJECT_PARAM_BUFFERS, iter.as_bytes()),
            ObjectType::OBJECT_PARAM_META(iter) => (Type::OBJECT_PARAM_META, iter.as_bytes()),
            ObjectType::OBJECT_PARAM_IO(iter) => (Type::OBJECT_PARAM_IO, iter.as_bytes()),
            ObjectType::OBJECT_PARAM_PROFILE(iter) => (Type::OBJECT_PARAM_PROFILE, iter.as_bytes()),
            ObjectType::OBJECT_PARAM_PORT_CONFIG(iter) => (Type::OBJECT_PARAM_PORT_CONFIG, iter.as_bytes()),
            ObjectType::OBJECT_PARAM_ROUTE(iter) => (Type::OBJECT_PARAM_ROUTE, iter.as_bytes()),
            ObjectType::OBJECT_PROFILER(iter) => (Type::OBJECT_PROFILER, iter.as_bytes()),
            ObjectType::OBJECT_PARAM_LATENCY(iter) => (Type::OBJECT_PARAM_LATENCY, iter.as_bytes()),
            ObjectType::OBJECT_PARAM_PROCESS_LATENCY(iter) => (Type::OBJECT_PARAM_PROCESS_LATENCY, iter.as_bytes()),
        }
    }
}

/// The variant that an object body with type `body_type` and id `body_id` is read as:
/// format objects are read as fixed formats when the id is the format parameter, and as
/// enumerated formats otherwise; none for unknown body types.
pub open spec fn spec_object_kind(body_type: u32, body_id: u32) -> Option<u32> {
    if body_type == Type::OBJECT_PROP_INFO {
        Some(Type::OBJECT_PROP_INFO)
    } else if body_type == Type::OBJECT_PROPS {
        Some(Type::OBJECT_PROPS)
    } else if body_type == Type::OBJECT_FORMAT {
        if body_id == ParamType::FORMAT {
            Some(Type::OBJECT_FORMAT)
        } else {
            Some(OBJECT_ENUM_FORMAT_KIND)
        }
    } else if body_type == Type::OBJECT_PARAM_BUFFERS {
        Some(Type::OBJECT_PARAM_BUFFERS)
    } else if body_type == Type::OBJECT_PARAM_META {
        Some(Type::OBJECT_PARAM_META)
    } else if body_type == Type::OBJECT_PARAM_IO {
        Some(Type::OBJECT_PARAM_IO)
    } else if body_type == Type::OBJECT_PARAM_PROFILE {
        Some(Type::OBJECT_PARAM_PROFILE)
    } else if body_type == Type::OBJECT_PARAM_PORT_CONFIG {
        Some(Type::OBJECT_PARAM_PORT_CONFIG)
    } else if body_type == Type::OBJECT_PARAM_ROUTE {
        Some(Type::OBJECT_PARAM_ROUTE)
    } else if body_type == Type::OBJECT_PROFILER {
        Some(Type::OBJECT_PROFILER)
    } else if body_type == Type::OBJECT_PARAM_LATENCY {
        Some(Type::OBJECT_PARAM_LATENCY)
    } else if body_type == Type::OBJECT_PARAM_PROCESS_LATENCY {
        Some(Type::OBJECT_PARAM_PROCESS_LATENCY)
    } else {
        None
    }
}

/// Body type recorded in the body `body` of an object pod.
pub open spec fn spec_object_body_type(body: Seq<u8>) -> u32 {
    spec_read_u32(body, 0)
}

/// Body id recorded in the body `body` of an object pod.
pub open spec fn spec_object_body_id(body: Seq<u8>) -> u32 {
    spec_read_u32(body, 4)
}

/// The props region of the body `body` of an object pod.
pub open spec fn spec_object_content(body: Seq<u8>) -> Seq<u8> {
    body.subrange(OBJECT_BODY_SIZE as int, body.len() as int)
}

/// Whether `r` is the outcome of reading the props region `content` of an object with body
/// type `body_type` and id `body_id`.
pub open spec fn spec_object_result(
    r: PodResult<ObjectType>,
    body_type: u32,
    body_id: u32,
    content: Seq<u8>,
) -> bool {
    match spec_object_kind(body_type, body_id) {
        None => r matches Err(e) && e == PodError::UnexpectedObjectType(body_type),
        Some(kind) => r matches Ok(v) && v.spec_kind() == kind && v.spec_content() == content
            && v.spec_remaining() == spec_props(content),
    }
}

/// The object pod with the given body type, body id and props region, without padding.
pub open spec fn spec_object_pod(body_type: u32, body_id: u32, content: Seq<u8>) -> Seq<u8> {
    spec_header((OBJECT_BODY_SIZE + content.len()) as u32, Type::OBJECT) + spec_le_u32(body_type)
        + spec_le_u32(body_id) + content
}

/// Read the props region `content` of an object with body type `body_type` and id `body_id`.
pub fn parse_raw_body<'a>(body_type: u32, body_id: u32, content: &'a [u8]) -> (r: PodResult<
    ObjectType<'a>,
>)
    ensures
        spec_object_result(r, body_type, body_id, content@),
{
    proof {
        assert(content@.subrange(0, content@.len() as int) =~= content@);
    }
    if body_type == Type::OBJECT_PROP_INFO {
        Ok(ObjectType::OBJECT_PROP_INFO(ObjectPropsIterator::new(content, content.len())))
    } else if body_type == Type::OBJECT_PROPS {
        Ok(ObjectType::OBJECT_PROPS(ObjectPropsIterator::new(content, content.len())))
    } else if body_type == Type::OBJECT_FORMAT {
        if body_id == ParamType::FORMAT {
            Ok(ObjectType::OBJECT_FORMAT(ObjectPropsIterator::new(content, content.len())))
        } else {
            Ok(ObjectType::OBJECT_ENUM_FORMAT(ObjectPropsIterator::new(content, content.len())))
        }
    } else if body_type == Type::OBJECT_PARAM_BUFFERS {
        Ok(ObjectType::OBJECT_PARAM_BUFFERS(ObjectPropsIterator::new(content, content.len())))
    } else if body_type == Type::OBJECT_PARAM_META {
        Ok(ObjectType::OBJECT_PARAM_META(ObjectPropsIterator::new(content, content.len())))
    } else if body_type == Type::OBJECT_PARAM_IO {
        Ok(ObjectType::OBJECT_PARAM_IO(ObjectPropsIterator::new(content, content.len())))
    } else if body_type == Type::OBJECT_PARAM_PROFILE {
        Ok(ObjectType::OBJECT_PARAM_PROFILE(ObjectPropsIterator::new(content, content.len())))
    } else if body_type == Type::OBJECT_PARAM_PORT_CONFIG {
        Ok(ObjectType::OBJECT_PARAM_PORT_CONFIG(ObjectPropsIterator::new(content, content.len())))
    } else if body_type == Type::OBJECT_PARAM_ROUTE {
        Ok(ObjectType::OBJECT_PARAM_ROUTE(ObjectPropsIterator::new(content, content.len())))
    } else if body_type == Type::OBJECT_PROFILER {
        Ok(ObjectType::OBJECT_PROFILER(ObjectPropsIterator::new(content, content.len())))
    } else if body_type == Type::OBJECT_PARAM_LATENCY {
        Ok(ObjectType::OBJECT_PARAM_LATENCY(ObjectPropsIterator::new(content, content.len())))
    } else if body_type == Type::OBJECT_PARAM_PROCESS_LATENCY {
        Ok(ObjectType::OBJECT_PARAM_PROCESS_LATENCY(ObjectPropsIterator::new(content, content.len())))
    } else {
        Err(PodError::UnexpectedObjectType(body_type))
    }
}

/// Kind of the object pods. The value is the typed iterator over the props.
pub struct PodObjectRef<'a> {
    phantom: PhantomData<&'a ()>,
}

impl<'a> PodValue for PodObjectRef<'a> {
    type Value = ObjectType<'a>;
}

impl<'a> PodObjectRef<'a> {
    /// Body type of the object pod `pod`. The body must hold the type and id.
    pub fn body_type(pod: &PodRef) -> (t: u32)
        requires
            spec_pod_body(pod@).len() >= OBJECT_BODY_SIZE,
        ensures
            t == spec_object_body_type(spec_pod_body(pod@)),
    {
        let body = pod.body();
        proof {
            assert(body@.subrange(0, 4) =~= spec_pod_body(pod@).subrange(0, 4));
        }
        read_u32(body, 0)
    }

    /// Body id of the object pod `pod`. The body must hold the type and id.
    pub fn body_id(pod: &PodRef) -> (id: u32)
        requires
            spec_pod_body(pod@).len() >= OBJECT_BODY_SIZE,
        ensures
            id == spec_object_body_id(spec_pod_body(pod@)),
    {
        let body = pod.body();
        proof {
            assert(body@.subrange(4, 8) =~= spec_pod_body(pod@).subrange(4, 8));
        }
        read_u32(body, 4)
    }

    /// The props of the object pod `pod`, typed by its body type and id.
    /// The body must hold the type and id.
    pub fn value(pod: &PodRef<'a>) -> (r: PodResult<ObjectType<'a>>)
        requires
            spec_pod_body(pod@).len() >= OBJECT_BODY_SIZE,
        ensures
            spec_object_result(
                r,
                spec_object_body_type(spec_pod_body(pod@)),
                spec_object_body_id(spec_pod_body(pod@)),
                spec_object_content(spec_pod_body(pod@)),
            ),
    {
        let body_type = Self::body_type(pod);
        let body_id = Self::body_id(pod);
        let body = pod.body();
        let content = slice_subrange(body, OBJECT_BODY_SIZE, body.len());
        parse_raw_body(body_type, body_id, content)
    }

    /// The props of the object pod `pod`, typed by its body type as if its id were
    /// `param_type`; the recorded id can be invalid.
    /// The body must hold the type and id.
    pub fn param_value(pod: &PodRef<'a>, param_type: u32) -> (r: PodResult<ObjectType<'a>>)
        requires
            spec_pod_body(pod@).len() >= OBJECT_BODY_SIZE,
        ensures
            spec_object_result(
                r,
                spec_object_body_type(spec_pod_body(pod@)),
                param_type,
                spec_object_content(spec_pod_body(pod@)),
            ),
    {
        let body_type = Self::body_type(pod);
        let body = pod.body();
        let content = slice_subrange(body, OBJECT_BODY_SIZE, body.len());
        parse_raw_body(body_type, param_type, content)
    }

    /// Allocates the object pod holding `value`, with the body id `id`.
    pub fn from_id_and_value(id: u32, value: &ObjectType<'a>) -> (r: PodResult<
        AllocatedData<PodObjectRef<'a>>,
    >)
        requires
            Self::spec_writable(*value),
        ensures
            r matches Ok(data) && data@ == spec_object_pod(
                value.spec_body_type(),
                id,
                value.spec_content(),
            ) + spec_padding(spec_object_pod(value.spec_body_type(), id, value.spec_content()).len()),
    {
        let mut obj = PodBuf::<Self>::from_value(value)?.into_pod();
        let ghost header = spec_header(
            (OBJECT_BODY_SIZE + value.spec_content().len()) as u32,
            Type::OBJECT,
        );
        let ghost old_pod = spec_object_pod(value.spec_body_type(), 0, value.spec_content());
        let ghost new_pod = spec_object_pod(value.spec_body_type(), id, value.spec_content());
        proof {
            lemma_le_u32(id);
            lemma_le_u32(0);
            lemma_le_u32(value.spec_body_type());
            lemma_header(
                (OBJECT_BODY_SIZE + value.spec_content().len()) as u32,
                Type::OBJECT,
                Seq::empty(),
            );
            assert(old_pod.len() == new_pod.len());
        }
        let ghost before = obj@;
        obj.set_body_id(id);
        proof {
            assert(before.subrange(0, 12) =~= header + spec_le_u32(value.spec_body_type()));
            assert(obj@ =~= new_pod + spec_padding(new_pod.len()));
        }
        Ok(obj)
    }
}

impl<'a> AllocatedData<PodObjectRef<'a>> {
    /// Set the body id of the allocated object pod. The data must hold the object body.
    pub fn set_body_id(&mut self, id: u32)
        requires
            old(self)@.len() >= 16,
        ensures
            final(self)@ == old(self)@.subrange(0, 12) + spec_le_u32(id) + old(self)@.subrange(
                16,
                old(self)@.len() as int,
            ),
    {
        self.set_u32(12, id);
    }
}

impl<'a> WritePod for PodObjectRef<'a> {
    open spec fn spec_writable(value: ObjectType<'a>) -> bool {
        OBJECT_BODY_SIZE + value.spec_content().len() <= u32::MAX
    }

    open spec fn spec_pod_bytes(value: ObjectType<'a>) -> Seq<u8> {
        spec_object_pod(value.spec_body_type(), 0, value.spec_content())
    }

    proof fn lemma_pod_bytes(value: ObjectType<'a>) {
        lemma_object_roundtrip(value.spec_body_type(), 0, value.spec_content());
    }

    fn write_pod(buffer: &mut Vec<u8>, value: &ObjectType<'a>) -> PodResult<()> {
        let ghost start = buffer@;
        let (body_type, content) = value.body_type_and_content();
        write_header(buffer, (OBJECT_BODY_SIZE + content.len()) as u32, Type::OBJECT)?;
        write_value(buffer, body_type);
        write_value(buffer, 0);
        write_bytes(buffer, content);
        proof {
            assert(buffer@ =~= start + Self::spec_pod_bytes(*value));
            lemma_object_roundtrip(value.spec_body_type(), 0, value.spec_content());
        }
        write_align_padding(buffer)?;
        proof {
            lemma_padding_shift(Self::spec_pod_bytes(*value).len(), start.len());
        }
        Ok(())
    }
}

impl<'a> FromValue for PodObjectRef<'a> {

}

/// Reading a written object pod gives back its body type, body id and props region.
pub proof fn lemma_object_roundtrip(body_type: u32, body_id: u32, content: Seq<u8>)
    requires
        OBJECT_BODY_SIZE + content.len() <= u32::MAX,
    ensures
        spec_is_pod(spec_object_pod(body_type, body_id, content)),
        spec_pod_type(spec_object_pod(body_type, body_id, content)) == Type::OBJECT,
        spec_pod_body(spec_object_pod(body_type, body_id, content)).len() >= OBJECT_BODY_SIZE,
        spec_object_body_type(spec_pod_body(spec_object_pod(body_type, body_id, content)))
            == body_type,
        spec_object_body_id(spec_pod_body(spec_object_pod(body_type, body_id, content))) == body_id,
        spec_object_content(spec_pod_body(spec_object_pod(body_type, body_id, content)))
            == content,
{
    let rest = spec_le_u32(body_type) + spec_le_u32(body_id) + content;
    lemma_header((OBJECT_BODY_SIZE + content.len()) as u32, Type::OBJECT, rest);
    lemma_le_u32(body_type);
    lemma_le_u32(body_id);
    let pod = spec_object_pod(body_type, body_id, content);
    assert(pod =~= spec_header((OBJECT_BODY_SIZE + content.len()) as u32, Type::OBJECT) + rest);
    let body = spec_pod_body(pod);
    assert(body =~= rest);
    lemma_read_u32(Seq::empty(), body_type, spec_le_u32(body_id) + content);
    assert(Seq::<u8>::empty() + spec_le_u32(body_type) + (spec_le_u32(body_id) + content)
        =~= rest);
    lemma_read_u32(spec_le_u32(body_type), body_id, content);
    assert(spec_object_content(body) =~= content);
}

} // verus!

verus! {

/// A written object value is read back over the same props, as the same kind of value:
/// a format value is read as a fixed format when read as the format parameter, and as an
/// enumerated format otherwise, for the written body id is zero.
pub proof fn lemma_object_value_roundtrip(v: ObjectType, param_type: u32)
    requires
        PodObjectRef::spec_writable(v),
    ensures
        ({
            let body = spec_pod_body(PodObjectRef::spec_pod_bytes(v));
            &&& spec_object_body_type(body) == v.spec_body_type()
            &&& spec_object_body_id(body) == 0
            &&& spec_object_content(body) == v.spec_content()
        }),
        spec_object_kind(v.spec_body_type(), param_type) == Some(
            if v.spec_body_type() == Type::OBJECT_FORMAT {
                if param_type == ParamType::FORMAT {
                    Type::OBJECT_FORMAT
                } else {
                    OBJECT_ENUM_FORMAT_KIND
                }
            } else {
                v.spec_kind()
            },
        ),
{
    lemma_object_roundtrip(v.spec_body_type(), 0, v.spec_content());
}

} // verus!

verus! {

/// An object body is read as the variant named by its body type: the variant of the same
/// type constant for every type other than the format type, a fixed format for a format
/// body with the format parameter id and an enumerated format for any other id, and an
/// error for an unknown type.
pub proof fn lemma_object_variant_read(
    r: PodResult<ObjectType>,
    body_type: u32,
    body_id: u32,
    content: Seq<u8>,
)
    requires
        spec_object_result(r, body_type, body_id, content),
    ensures
        body_type == Type::OBJECT_PROP_INFO ==> (r matches Ok(v) && v is OBJECT_PROP_INFO),
        body_type == Type::OBJECT_PROPS ==> (r matches Ok(v) && v is OBJECT_PROPS),
        body_type == Type::OBJECT_PARAM_BUFFERS ==> (r matches Ok(v) && v is OBJECT_PARAM_BUFFERS),
        body_type == Type::OBJECT_PARAM_META ==> (r matches Ok(v) && v is OBJECT_PARAM_META),
        body_type == Type::OBJECT_PARAM_IO ==> (r matches Ok(v) && v is OBJECT_PARAM_IO),
        body_type == Type::OBJECT_PARAM_PROFILE ==> (r matches Ok(v) && v is OBJECT_PARAM_PROFILE),
        body_type == Type::OBJECT_PARAM_PORT_CONFIG ==> (r matches Ok(v) && v is OBJECT_PARAM_PORT_CONFIG),
        body_type == Type::OBJECT_PARAM_ROUTE ==> (r matches Ok(v) && v is OBJECT_PARAM_ROUTE),
        body_type == Type::OBJECT_PROFILER ==> (r matches Ok(v) && v is OBJECT_PROFILER),
        body_type == Type::OBJECT_PARAM_LATENCY ==> (r matches Ok(v) && v is OBJECT_PARAM_LATENCY),
        body_type == Type::OBJECT_PARAM_PROCESS_LATENCY ==> (r matches Ok(v) && v is OBJECT_PARAM_PROCESS_LATENCY),
        body_type == Type::OBJECT_FORMAT && body_id == ParamType::FORMAT ==> (r matches Ok(v)
            && v is OBJECT_FORMAT),
        body_type == Type::OBJECT_FORMAT && body_id != ParamType::FORMAT ==> (r matches Ok(v)
            && v is OBJECT_ENUM_FORMAT),
        (body_type != Type::OBJECT_PROP_INFO && body_type != Type::OBJECT_PROPS && body_type != Type::OBJECT_PARAM_BUFFERS && body_type != Type::OBJECT_PARAM_META && body_type != Type::OBJECT_PARAM_IO && body_type != Type::OBJECT_PARAM_PROFILE && body_type != Type::OBJECT_PARAM_PORT_CONFIG && body_type != Type::OBJECT_PARAM_ROUTE && body_type != Type::OBJECT_PROFILER && body_type != Type::OBJECT_PARAM_LATENCY && body_type != Type::OBJECT_PARAM_PROCESS_LATENCY && body_type != Type::OBJECT_FORMAT) ==> r == Err::<ObjectType, PodError>(
            PodError::UnexpectedObjectType(body_type),
        ),
{
}

/// Every variant is written with the body type constant it is named by; an enumerated
/// format is written as a format object.
pub proof fn lemma_object_variant_written(value: ObjectType)
    ensures
        value is OBJECT_PROP_INFO ==> value.spec_body_type() == Type::OBJECT_PROP_INFO && value.spec_kind() == Type::OBJECT_PROP_INFO,
        value is OBJECT_PROPS ==> value.spec_body_type() == Type::OBJECT_PROPS && value.spec_kind() == Type::OBJECT_PROPS,
        value is OBJECT_PARAM_BUFFERS ==> value.spec_body_type() == Type::OBJECT_PARAM_BUFFERS && value.spec_kind() == Type::OBJECT_PARAM_BUFFERS,
        value is OBJECT_PARAM_META ==> value.spec_body_type() == Type::OBJECT_PARAM_META && value.spec_kind() == Type::OBJECT_PARAM_META,
        value is OBJECT_PARAM_IO ==> value.spec_body_type() == Type::OBJECT_PARAM_IO && value.spec_kind() == Type::OBJECT_PARAM_IO,
        value is OBJECT_PARAM_PROFILE ==> value.spec_body_type() == Type::OBJECT_PARAM_PROFILE && value.spec_kind() == Type::OBJECT_PARAM_PROFILE,
        value is OBJECT_PARAM_PORT_CONFIG ==> value.spec_body_type() == Type::OBJECT_PARAM_PORT_CONFIG && value.spec_kind() == Type::OBJECT_PARAM_PORT_CONFIG,
        value is OBJECT_PARAM_ROUTE ==> value.spec_body_type() == Type::OBJECT_PARAM_ROUTE && value.spec_kind() == Type::OBJECT_PARAM_ROUTE,
        value is OBJECT_PROFILER ==> value.spec_body_type() == Type::OBJECT_PROFILER && value.spec_kind() == Type::OBJECT_PROFILER,
        value is OBJECT_PARAM_LATENCY ==> value.spec_body_type() == Type::OBJECT_PARAM_LATENCY && value.spec_kind() == Type::OBJECT_PARAM_LATENCY,
        value is OBJECT_PARAM_PROCESS_LATENCY ==> value.spec_body_type() == Type::OBJECT_PARAM_PROCESS_LATENCY && value.spec_kind() == Type::OBJECT_PARAM_PROCESS_LATENCY,
        value is OBJECT_FORMAT ==> value.spec_body_type() == Type::OBJECT_FORMAT && value.spec_kind() == Type::OBJECT_FORMAT,
        value is OBJECT_ENUM_FORMAT ==> value.spec_body_type() == Type::OBJECT_FORMAT,
{
}

} // verus!

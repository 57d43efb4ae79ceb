//! Props of the format objects that enumerate the possible formats: most values are choices.
use vstd::prelude::*;

use crate::spa::pod::object::prop_core::PodPropKeyType;
use crate::spa::pod::PodRef;
use crate::spa::type_::Type;
use crate::spa::pod::object::format::Format;

verus! {

/// A prop of a format object that enumerates formats.
/// Each variant holds the pod of the prop, which has the type that the key names.
#[allow(non_camel_case_types)]
#[derive(Debug, Clone, Copy)]
pub enum ObjectEnumFormatType<'a> {
    MEDIA_TYPE(PodRef<'a>),
    MEDIA_SUBTYPE(PodRef<'a>),
    AUDIO_FORMAT(PodRef<'a>),
    AUDIO_FLAGS(PodRef<'a>),
    AUDIO_RATE(PodRef<'a>),
    AUDIO_CHANNELS(PodRef<'a>),
    AUDIO_POSITION(PodRef<'a>),
    AUDIO_IEC958CODEC(PodRef<'a>),
    AUDIO_BITORDER(PodRef<'a>),
    AUDIO_INTERLEAVE(PodRef<'a>),
    VIDEO_FORMAT(PodRef<'a>),
    VIDEO_MODIFIER(PodRef<'a>),
    VIDEO_SIZE(PodRef<'a>),
    VIDEO_FRAMERATE(PodRef<'a>),
    VIDEO_MAX_FRAMERATE(PodRef<'a>),
    VIDEO_VIEWS(PodRef<'a>),
    VIDEO_INTERLACE_MODE(PodRef<'a>),
    VIDEO_PIXEL_ASPECT_RATIO(PodRef<'a>),
    VIDEO_MULTIVIEW_MODE(PodRef<'a>),
    VIDEO_MULTIVIEW_FLAGS(PodRef<'a>),
    VIDEO_CHROMA_SITE(PodRef<'a>),
    VIDEO_COLOR_RANGE(PodRef<'a>),
    VIDEO_COLOR_MATRIX(PodRef<'a>),
    VIDEO_TRANSFER_FUNCTION(PodRef<'a>),
    VIDEO_COLOR_PRIMARIES(PodRef<'a>),
    VIDEO_PROFILE(PodRef<'a>),
    VIDEO_LEVEL(PodRef<'a>),
    VIDEO_H264_STREAM_FORMAT(PodRef<'a>),
    VIDEO_H264_ALIGNMENT(PodRef<'a>),
}

impl<'a> PodPropKeyType<'a> for ObjectEnumFormatType<'a> {
    open spec fn spec_key_type(key: u32) -> Option<u32> {
        if key == Format::MEDIA_TYPE {
            Some(Type::ID)
        } else if key == Format::MEDIA_SUBTYPE {
            Some(Type::ID)
        } else if key == Format::AUDIO_FORMAT {
            Some(Type::CHOICE)
        } else if key == Format::AUDIO_FLAGS {
            Some(Type::CHOICE)
        } else if key == Format::AUDIO_RATE {
            Some(Type::CHOICE)
        } else if key == Format::AUDIO_CHANNELS {
            Some(Type::CHOICE)
        } else if key == Format::AUDIO_POSITION {
            Some(Type::ARRAY)
        } else if key == Format::AUDIO_IEC958CODEC {
            Some(Type::CHOICE)
        } else if key == Format::AUDIO_BITORDER {
            Some(Type::CHOICE)
        } else if key == Format::AUDIO_INTERLEAVE {
            Some(Type::CHOICE)
        } else if key == Format::VIDEO_FORMAT {
            Some(Type::CHOICE)
        } else if key == Format::VIDEO_MODIFIER {
            Some(Type::LONG)
        } else if key == Format::VIDEO_SIZE {
            Some(Type::CHOICE)
        } else if key == Format::VIDEO_FRAMERATE {
            Some(Type::CHOICE)
        } else if key == Format::VIDEO_MAX_FRAMERATE {
            Some(Type::CHOICE)
        } else if key == Format::VIDEO_VIEWS {
            Some(Type::INT)
        } else if key == Format::VIDEO_INTERLACE_MODE {
            Some(Type::CHOICE)
        } else if key == Format::VIDEO_PIXEL_ASPECT_RATIO {
            Some(Type::CHOICE)
        } else if key == Format::VIDEO_MULTIVIEW_MODE {
            Some(Type::CHOICE)
        } else if key == Format::VIDEO_MULTIVIEW_FLAGS {
            Some(Type::CHOICE)
        } else if key == Format::VIDEO_CHROMA_SITE {
            Some(Type::CHOICE)
        } else if key == Format::VIDEO_COLOR_RANGE {
            Some(Type::CHOICE)
        } else if key == Format::VIDEO_COLOR_MATRIX {
            Some(Type::CHOICE)
        } else if key == Format::VIDEO_TRANSFER_FUNCTION {
            Some(Type::CHOICE)
        } else if key == Format::VIDEO_COLOR_PRIMARIES {
            Some(Type::CHOICE)
        } else if key == Format::VIDEO_PROFILE {
            Some(Type::CHOICE)
        } else if key == Format::VIDEO_LEVEL {
            Some(Type::CHOICE)
        } else if key == Format::VIDEO_H264_STREAM_FORMAT {
            Some(Type::CHOICE)
        } else if key == Format::VIDEO_H264_ALIGNMENT {
            Some(Type::CHOICE)
        } else {
            None
        }
    }

    open spec fn spec_key(&self) -> u32 {
        match *self {
            ObjectEnumFormatType::MEDIA_TYPE(_) => Format::MEDIA_TYPE,
            ObjectEnumFormatType::MEDIA_SUBTYPE(_) => Format::MEDIA_SUBTYPE,
            ObjectEnumFormatType::AUDIO_FORMAT(_) => Format::AUDIO_FORMAT,
            ObjectEnumFormatType::AUDIO_FLAGS(_) => Format::AUDIO_FLAGS,
            ObjectEnumFormatType::AUDIO_RATE(_) => Format::AUDIO_RATE,
            ObjectEnumFormatType::AUDIO_CHANNELS(_) => Format::AUDIO_CHANNELS,
            ObjectEnumFormatType::AUDIO_POSITION(_) => Format::AUDIO_POSITION,
            ObjectEnumFormatType::AUDIO_IEC958CODEC(_) => Format::AUDIO_IEC958CODEC,
            ObjectEnumFormatType::AUDIO_BITORDER(_) => Format::AUDIO_BITORDER,
            ObjectEnumFormatType::AUDIO_INTERLEAVE(_) => Format::AUDIO_INTERLEAVE,
            ObjectEnumFormatType::VIDEO_FORMAT(_) => Format::VIDEO_FORMAT,
            ObjectEnumFormatType::VIDEO_MODIFIER(_) => Format::VIDEO_MODIFIER,
            ObjectEnumFormatType::VIDEO_SIZE(_) => Format::VIDEO_SIZE,
            ObjectEnumFormatType::VIDEO_FRAMERATE(_) => Format::VIDEO_FRAMERATE,
            ObjectEnumFormatType::VIDEO_MAX_FRAMERATE(_) => Format::VIDEO_MAX_FRAMERATE,
            ObjectEnumFormatType::VIDEO_VIEWS(_) => Format::VIDEO_VIEWS,
            ObjectEnumFormatType::VIDEO_INTERLACE_MODE(_) => Format::VIDEO_INTERLACE_MODE,
            ObjectEnumFormatType::VIDEO_PIXEL_ASPECT_RATIO(_) => Format::VIDEO_PIXEL_ASPECT_RATIO,
            ObjectEnumFormatType::VIDEO_MULTIVIEW_MODE(_) => Format::VIDEO_MULTIVIEW_MODE,
            ObjectEnumFormatType::VIDEO_MULTIVIEW_FLAGS(_) => Format::VIDEO_MULTIVIEW_FLAGS,
            ObjectEnumFormatType::VIDEO_CHROMA_SITE(_) => Format::VIDEO_CHROMA_SITE,
            ObjectEnumFormatType::VIDEO_COLOR_RANGE(_) => Format::VIDEO_COLOR_RANGE,
            ObjectEnumFormatType::VIDEO_COLOR_MATRIX(_) => Format::VIDEO_COLOR_MATRIX,
            ObjectEnumFormatType::VIDEO_TRANSFER_FUNCTION(_) => Format::VIDEO_TRANSFER_FUNCTION,
            ObjectEnumFormatType::VIDEO_COLOR_PRIMARIES(_) => Format::VIDEO_COLOR_PRIMARIES,
            ObjectEnumFormatType::VIDEO_PROFILE(_) => Format::VIDEO_PROFILE,
            ObjectEnumFormatType::VIDEO_LEVEL(_) => Format::VIDEO_LEVEL,
            ObjectEnumFormatType::VIDEO_H264_STREAM_FORMAT(_) => Format::VIDEO_H264_STREAM_FORMAT,
            ObjectEnumFormatType::VIDEO_H264_ALIGNMENT(_) => Format::VIDEO_H264_ALIGNMENT,
        }
    }

    open spec fn spec_pod(&self) -> PodRef<'a> {
        match *self {
            ObjectEnumFormatType::MEDIA_TYPE(pod) => pod,
            ObjectEnumFormatType::MEDIA_SUBTYPE(pod) => pod,
            ObjectEnumFormatType::AUDIO_FORMAT(pod) => pod,
            ObjectEnumFormatType::AUDIO_FLAGS(pod) => pod,
            ObjectEnumFormatType::AUDIO_RATE(pod) => pod,
            ObjectEnumFormatType::AUDIO_CHANNELS(pod) => pod,
            ObjectEnumFormatType::AUDIO_POSITION(pod) => pod,
            ObjectEnumFormatType::AUDIO_IEC958CODEC(pod) => pod,
            ObjectEnumFormatType::AUDIO_BITORDER(pod) => pod,
            ObjectEnumFormatType::AUDIO_INTERLEAVE(pod) => pod,
            ObjectEnumFormatType::VIDEO_FORMAT(pod) => pod,
            ObjectEnumFormatType::VIDEO_MODIFIER(pod) => pod,
            ObjectEnumFormatType::VIDEO_SIZE(pod) => pod,
            ObjectEnumFormatType::VIDEO_FRAMERATE(pod) => pod,
            ObjectEnumFormatType::VIDEO_MAX_FRAMERATE(pod) => pod,
            ObjectEnumFormatType::VIDEO_VIEWS(pod) => pod,
            ObjectEnumFormatType::VIDEO_INTERLACE_MODE(pod) => pod,
            ObjectEnumFormatType::VIDEO_PIXEL_ASPECT_RATIO(pod) => pod,
            ObjectEnumFormatType::VIDEO_MULTIVIEW_MODE(pod) => pod,
            ObjectEnumFormatType::VIDEO_MULTIVIEW_FLAGS(pod) => pod,
            ObjectEnumFormatType::VIDEO_CHROMA_SITE(pod) => pod,
            ObjectEnumFormatType::VIDEO_COLOR_RANGE(pod) => pod,
            ObjectEnumFormatType::VIDEO_COLOR_MATRIX(pod) => pod,
            ObjectEnumFormatType::VIDEO_TRANSFER_FUNCTION(pod) => pod,
            ObjectEnumFormatType::VIDEO_COLOR_PRIMARIES(pod) => pod,
            ObjectEnumFormatType::VIDEO_PROFILE(pod) => pod,
            ObjectEnumFormatType::VIDEO_LEVEL(pod) => pod,
            ObjectEnumFormatType::VIDEO_H264_STREAM_FORMAT(pod) => pod,
            ObjectEnumFormatType::VIDEO_H264_ALIGNMENT(pod) => pod,
        }
    }

    proof fn lemma_key_known(&self) {
    }

    fn key_type(key: u32) -> Option<u32> {
        if key == Format::MEDIA_TYPE {
            Some(Type::ID)
        } else if key == Format::MEDIA_SUBTYPE {
            Some(Type::ID)
        } else if key == Format::AUDIO_FORMAT {
            Some(Type::CHOICE)
        } else if key == Format::AUDIO_FLAGS {
            Some(Type::CHOICE)
        } else if key == Format::AUDIO_RATE {
            Some(Type::CHOICE)
        } else if key == Format::AUDIO_CHANNELS {
            Some(Type::CHOICE)
        } else if key == Format::AUDIO_POSITION {
            Some(Type::ARRAY)
        } else if key == Format::AUDIO_IEC958CODEC {
            Some(Type::CHOICE)
        } else if key == Format::AUDIO_BITORDER {
            Some(Type::CHOICE)
        } else if key == Format::AUDIO_INTERLEAVE {
            Some(Type::CHOICE)
        } else if key == Format::VIDEO_FORMAT {
            Some(Type::CHOICE)
        } else if key == Format::VIDEO_MODIFIER {
            Some(Type::LONG)
        } else if key == Format::VIDEO_SIZE {
            Some(Type::CHOICE)
        } else if key == Format::VIDEO_FRAMERATE {
            Some(Type::CHOICE)
        } else if key == Format::VIDEO_MAX_FRAMERATE {
            Some(Type::CHOICE)
        } else if key == Format::VIDEO_VIEWS {
            Some(Type::INT)
        } else if key == Format::VIDEO_INTERLACE_MODE {
            Some(Type::CHOICE)
        } else if key == Format::VIDEO_PIXEL_ASPECT_RATIO {
            Some(Type::CHOICE)
        } else if key == Format::VIDEO_MULTIVIEW_MODE {
            Some(Type::CHOICE)
        } else if key == Format::VIDEO_MULTIVIEW_FLAGS {
            Some(Type::CHOICE)
        } else if key == Format::VIDEO_CHROMA_SITE {
            Some(Type::CHOICE)
        } else if key == Format::VIDEO_COLOR_RANGE {
            Some(Type::CHOICE)
        } else if key == Format::VIDEO_COLOR_MATRIX {
            Some(Type::CHOICE)
        } else if key == Format::VIDEO_TRANSFER_FUNCTION {
            Some(Type::CHOICE)
        } else if key == Format::VIDEO_COLOR_PRIMARIES {
            Some(Type::CHOICE)
        } else if key == Format::VIDEO_PROFILE {
            Some(Type::CHOICE)
        } else if key == Format::VIDEO_LEVEL {
            Some(Type::CHOICE)
        } else if key == Format::VIDEO_H264_STREAM_FORMAT {
            Some(Type::CHOICE)
        } else if key == Format::VIDEO_H264_ALIGNMENT {
            Some(Type::CHOICE)
        } else {
            None
        }
    }

    fn from_key_and_pod(key: u32, pod: PodRef<'a>) -> Self {
        if key == Format::MEDIA_TYPE {
            ObjectEnumFormatType::MEDIA_TYPE(pod)
        } else if key == Format::MEDIA_SUBTYPE {
            ObjectEnumFormatType::MEDIA_SUBTYPE(pod)
        } else if key == Format::AUDIO_FORMAT {
            ObjectEnumFormatType::AUDIO_FORMAT(pod)
        } else if key == Format::AUDIO_FLAGS {
            ObjectEnumFormatType::AUDIO_FLAGS(pod)
        } else if key == Format::AUDIO_RATE {
            ObjectEnumFormatType::AUDIO_RATE(pod)
        } else if key == Format::AUDIO_CHANNELS {
            ObjectEnumFormatType::AUDIO_CHANNELS(pod)
        } else if key == Format::AUDIO_POSITION {
            ObjectEnumFormatType::AUDIO_POSITION(pod)
        } else if key == Format::AUDIO_IEC958CODEC {
            ObjectEnumFormatType::AUDIO_IEC958CODEC(pod)
        } else if key == Format::AUDIO_BITORDER {
            ObjectEnumFormatType::AUDIO_BITORDER(pod)
        } else if key == Format::AUDIO_INTERLEAVE {
            ObjectEnumFormatType::AUDIO_INTERLEAVE(pod)
        } else if key == Format::VIDEO_FORMAT {
            ObjectEnumFormatType::VIDEO_FORMAT(pod)
        } else if key == Format::VIDEO_MODIFIER {
            ObjectEnumFormatType::VIDEO_MODIFIER(pod)
        } else if key == Format::VIDEO_SIZE {
            ObjectEnumFormatType::VIDEO_SIZE(pod)
        } else if key == Format::VIDEO_FRAMERATE {
            ObjectEnumFormatType::VIDEO_FRAMERATE(pod)
        } else if key == Format::VIDEO_MAX_FRAMERATE {
            ObjectEnumFormatType::VIDEO_MAX_FRAMERATE(pod)
        } else if key == Format::VIDEO_VIEWS {
            ObjectEnumFormatType::VIDEO_VIEWS(pod)
        } else if key == Format::VIDEO_INTERLACE_MODE {
            ObjectEnumFormatType::VIDEO_INTERLACE_MODE(pod)
        } else if key == Format::VIDEO_PIXEL_ASPECT_RATIO {
            ObjectEnumFormatType::VIDEO_PIXEL_ASPECT_RATIO(pod)
        } else if key == Format::VIDEO_MULTIVIEW_MODE {
            ObjectEnumFormatType::VIDEO_MULTIVIEW_MODE(pod)
        } else if key == Format::VIDEO_MULTIVIEW_FLAGS {
            ObjectEnumFormatType::VIDEO_MULTIVIEW_FLAGS(pod)
        } else if key == Format::VIDEO_CHROMA_SITE {
            ObjectEnumFormatType::VIDEO_CHROMA_SITE(pod)
        } else if key == Format::VIDEO_COLOR_RANGE {
            ObjectEnumFormatType::VIDEO_COLOR_RANGE(pod)
        } else if key == Format::VIDEO_COLOR_MATRIX {
            ObjectEnumFormatType::VIDEO_COLOR_MATRIX(pod)
        } else if key == Format::VIDEO_TRANSFER_FUNCTION {
            ObjectEnumFormatType::VIDEO_TRANSFER_FUNCTION(pod)
        } else if key == Format::VIDEO_COLOR_PRIMARIES {
            ObjectEnumFormatType::VIDEO_COLOR_PRIMARIES(pod)
        } else if key == Format::VIDEO_PROFILE {
            ObjectEnumFormatType::VIDEO_PROFILE(pod)
        } else if key == Format::VIDEO_LEVEL {
            ObjectEnumFormatType::VIDEO_LEVEL(pod)
        } else if key == Format::VIDEO_H264_STREAM_FORMAT {
            ObjectEnumFormatType::VIDEO_H264_STREAM_FORMAT(pod)
        } else if key == Format::VIDEO_H264_ALIGNMENT {
            ObjectEnumFormatType::VIDEO_H264_ALIGNMENT(pod)
        } else {
            vstd::pervasive::unreached()
        }
    }

    fn key(&self) -> u32 {
        match self {
            ObjectEnumFormatType::MEDIA_TYPE(_) => Format::MEDIA_TYPE,
            ObjectEnumFormatType::MEDIA_SUBTYPE(_) => Format::MEDIA_SUBTYPE,
            ObjectEnumFormatType::AUDIO_FORMAT(_) => Format::AUDIO_FORMAT,
            ObjectEnumFormatType::AUDIO_FLAGS(_) => Format::AUDIO_FLAGS,
            ObjectEnumFormatType::AUDIO_RATE(_) => Format::AUDIO_RATE,
            ObjectEnumFormatType::AUDIO_CHANNELS(_) => Format::AUDIO_CHANNELS,
            ObjectEnumFormatType::AUDIO_POSITION(_) => Format::AUDIO_POSITION,
            ObjectEnumFormatType::AUDIO_IEC958CODEC(_) => Format::AUDIO_IEC958CODEC,
            ObjectEnumFormatType::AUDIO_BITORDER(_) => Format::AUDIO_BITORDER,
            ObjectEnumFormatType::AUDIO_INTERLEAVE(_) => Format::AUDIO_INTERLEAVE,
            ObjectEnumFormatType::VIDEO_FORMAT(_) => Format::VIDEO_FORMAT,
            ObjectEnumFormatType::VIDEO_MODIFIER(_) => Format::VIDEO_MODIFIER,
            ObjectEnumFormatType::VIDEO_SIZE(_) => Format::VIDEO_SIZE,
            ObjectEnumFormatType::VIDEO_FRAMERATE(_) => Format::VIDEO_FRAMERATE,
            ObjectEnumFormatType::VIDEO_MAX_FRAMERATE(_) => Format::VIDEO_MAX_FRAMERATE,
            ObjectEnumFormatType::VIDEO_VIEWS(_) => Format::VIDEO_VIEWS,
            ObjectEnumFormatType::VIDEO_INTERLACE_MODE(_) => Format::VIDEO_INTERLACE_MODE,
            ObjectEnumFormatType::VIDEO_PIXEL_ASPECT_RATIO(_) => Format::VIDEO_PIXEL_ASPECT_RATIO,
            ObjectEnumFormatType::VIDEO_MULTIVIEW_MODE(_) => Format::VIDEO_MULTIVIEW_MODE,
            ObjectEnumFormatType::VIDEO_MULTIVIEW_FLAGS(_) => Format::VIDEO_MULTIVIEW_FLAGS,
            ObjectEnumFormatType::VIDEO_CHROMA_SITE(_) => Format::VIDEO_CHROMA_SITE,
            ObjectEnumFormatType::VIDEO_COLOR_RANGE(_) => Format::VIDEO_COLOR_RANGE,
            ObjectEnumFormatType::VIDEO_COLOR_MATRIX(_) => Format::VIDEO_COLOR_MATRIX,
            ObjectEnumFormatType::VIDEO_TRANSFER_FUNCTION(_) => Format::VIDEO_TRANSFER_FUNCTION,
            ObjectEnumFormatType::VIDEO_COLOR_PRIMARIES(_) => Format::VIDEO_COLOR_PRIMARIES,
            ObjectEnumFormatType::VIDEO_PROFILE(_) => Format::VIDEO_PROFILE,
            ObjectEnumFormatType::VIDEO_LEVEL(_) => Format::VIDEO_LEVEL,
            ObjectEnumFormatType::VIDEO_H264_STREAM_FORMAT(_) => Format::VIDEO_H264_STREAM_FORMAT,
            ObjectEnumFormatType::VIDEO_H264_ALIGNMENT(_) => Format::VIDEO_H264_ALIGNMENT,
        }
    }

    fn pod(&self) -> PodRef<'a> {
        match self {
            ObjectEnumFormatType::MEDIA_TYPE(pod) => *pod,
            ObjectEnumFormatType::MEDIA_SUBTYPE(pod) => *pod,
            ObjectEnumFormatType::AUDIO_FORMAT(pod) => *pod,
            ObjectEnumFormatType::AUDIO_FLAGS(pod) => *pod,
            ObjectEnumFormatType::AUDIO_RATE(pod) => *pod,
            ObjectEnumFormatType::AUDIO_CHANNELS(pod) => *pod,
            ObjectEnumFormatType::AUDIO_POSITION(pod) => *pod,
            ObjectEnumFormatType::AUDIO_IEC958CODEC(pod) => *pod,
            ObjectEnumFormatType::AUDIO_BITORDER(pod) => *pod,
            ObjectEnumFormatType::AUDIO_INTERLEAVE(pod) => *pod,
            ObjectEnumFormatType::VIDEO_FORMAT(pod) => *pod,
            ObjectEnumFormatType::VIDEO_MODIFIER(pod) => *pod,
            ObjectEnumFormatType::VIDEO_SIZE(pod) => *pod,
            ObjectEnumFormatType::VIDEO_FRAMERATE(pod) => *pod,
            ObjectEnumFormatType::VIDEO_MAX_FRAMERATE(pod) => *pod,
            ObjectEnumFormatType::VIDEO_VIEWS(pod) => *pod,
            ObjectEnumFormatType::VIDEO_INTERLACE_MODE(pod) => *pod,
            ObjectEnumFormatType::VIDEO_PIXEL_ASPECT_RATIO(pod) => *pod,
            ObjectEnumFormatType::VIDEO_MULTIVIEW_MODE(pod) => *pod,
            ObjectEnumFormatType::VIDEO_MULTIVIEW_FLAGS(pod) => *pod,
            ObjectEnumFormatType::VIDEO_CHROMA_SITE(pod) => *pod,
            ObjectEnumFormatType::VIDEO_COLOR_RANGE(pod) => *pod,
            ObjectEnumFormatType::VIDEO_COLOR_MATRIX(pod) => *pod,
            ObjectEnumFormatType::VIDEO_TRANSFER_FUNCTION(pod) => *pod,
            ObjectEnumFormatType::VIDEO_COLOR_PRIMARIES(pod) => *pod,
            ObjectEnumFormatType::VIDEO_PROFILE(pod) => *pod,
            ObjectEnumFormatType::VIDEO_LEVEL(pod) => *pod,
            ObjectEnumFormatType::VIDEO_H264_STREAM_FORMAT(pod) => *pod,
            ObjectEnumFormatType::VIDEO_H264_ALIGNMENT(pod) => *pod,
        }
    }
}

} // verus!

verus! {

/// The pod type that each key of a [ObjectEnumFormatType] prop is read as, fixed by SPA, with every
/// other key unknown; and the key that each variant is written with. A prop whose pod has
/// its key's type reads back as the variant of that key.
pub proof fn lemma_key_table<'a>(key: u32, value: ObjectEnumFormatType<'a>)
    ensures
        ObjectEnumFormatType::spec_key_type(Format::MEDIA_TYPE) == Some(Type::ID),
        ObjectEnumFormatType::spec_key_type(Format::MEDIA_SUBTYPE) == Some(Type::ID),
        ObjectEnumFormatType::spec_key_type(Format::AUDIO_FORMAT) == Some(Type::CHOICE),
        ObjectEnumFormatType::spec_key_type(Format::AUDIO_FLAGS) == Some(Type::CHOICE),
        ObjectEnumFormatType::spec_key_type(Format::AUDIO_RATE) == Some(Type::CHOICE),
        ObjectEnumFormatType::spec_key_type(Format::AUDIO_CHANNELS) == Some(Type::CHOICE),
        ObjectEnumFormatType::spec_key_type(Format::AUDIO_POSITION) == Some(Type::ARRAY),
        ObjectEnumFormatType::spec_key_type(Format::AUDIO_IEC958CODEC) == Some(Type::CHOICE),
        ObjectEnumFormatType::spec_key_type(Format::AUDIO_BITORDER) == Some(Type::CHOICE),
        ObjectEnumFormatType::spec_key_type(Format::AUDIO_INTERLEAVE) == Some(Type::CHOICE),
        ObjectEnumFormatType::spec_key_type(Format::VIDEO_FORMAT) == Some(Type::CHOICE),
        ObjectEnumFormatType::spec_key_type(Format::VIDEO_MODIFIER) == Some(Type::LONG),
        ObjectEnumFormatType::spec_key_type(Format::VIDEO_SIZE) == Some(Type::CHOICE),
        ObjectEnumFormatType::spec_key_type(Format::VIDEO_FRAMERATE) == Some(Type::CHOICE),
        ObjectEnumFormatType::spec_key_type(Format::VIDEO_MAX_FRAMERATE) == Some(Type::CHOICE),
        ObjectEnumFormatType::spec_key_type(Format::VIDEO_VIEWS) == Some(Type::INT),
        ObjectEnumFormatType::spec_key_type(Format::VIDEO_INTERLACE_MODE) == Some(Type::CHOICE),
        ObjectEnumFormatType::spec_key_type(Format::VIDEO_PIXEL_ASPECT_RATIO) == Some(Type::CHOICE),
        ObjectEnumFormatType::spec_key_type(Format::VIDEO_MULTIVIEW_MODE) == Some(Type::CHOICE),
        ObjectEnumFormatType::spec_key_type(Format::VIDEO_MULTIVIEW_FLAGS) == Some(Type::CHOICE),
        ObjectEnumFormatType::spec_key_type(Format::VIDEO_CHROMA_SITE) == Some(Type::CHOICE),
        ObjectEnumFormatType::spec_key_type(Format::VIDEO_COLOR_RANGE) == Some(Type::CHOICE),
        ObjectEnumFormatType::spec_key_type(Format::VIDEO_COLOR_MATRIX) == Some(Type::CHOICE),
        ObjectEnumFormatType::spec_key_type(Format::VIDEO_TRANSFER_FUNCTION) == Some(Type::CHOICE),
        ObjectEnumFormatType::spec_key_type(Format::VIDEO_COLOR_PRIMARIES) == Some(Type::CHOICE),
        ObjectEnumFormatType::spec_key_type(Format::VIDEO_PROFILE) == Some(Type::CHOICE),
        ObjectEnumFormatType::spec_key_type(Format::VIDEO_LEVEL) == Some(Type::CHOICE),
        ObjectEnumFormatType::spec_key_type(Format::VIDEO_H264_STREAM_FORMAT) == Some(Type::CHOICE),
        ObjectEnumFormatType::spec_key_type(Format::VIDEO_H264_ALIGNMENT) == Some(Type::CHOICE),
        (key != Format::MEDIA_TYPE && key != Format::MEDIA_SUBTYPE && key != Format::AUDIO_FORMAT && key != Format::AUDIO_FLAGS && key != Format::AUDIO_RATE && key != Format::AUDIO_CHANNELS && key != Format::AUDIO_POSITION && key != Format::AUDIO_IEC958CODEC && key != Format::AUDIO_BITORDER && key != Format::AUDIO_INTERLEAVE && key != Format::VIDEO_FORMAT && key != Format::VIDEO_MODIFIER && key != Format::VIDEO_SIZE && key != Format::VIDEO_FRAMERATE && key != Format::VIDEO_MAX_FRAMERATE && key != Format::VIDEO_VIEWS && key != Format::VIDEO_INTERLACE_MODE && key != Format::VIDEO_PIXEL_ASPECT_RATIO && key != Format::VIDEO_MULTIVIEW_MODE && key != Format::VIDEO_MULTIVIEW_FLAGS && key != Format::VIDEO_CHROMA_SITE && key != Format::VIDEO_COLOR_RANGE && key != Format::VIDEO_COLOR_MATRIX && key != Format::VIDEO_TRANSFER_FUNCTION && key != Format::VIDEO_COLOR_PRIMARIES && key != Format::VIDEO_PROFILE && key != Format::VIDEO_LEVEL && key != Format::VIDEO_H264_STREAM_FORMAT && key != Format::VIDEO_H264_ALIGNMENT) ==> ObjectEnumFormatType::spec_key_type(key) is None,
        value is MEDIA_TYPE ==> value.spec_key() == Format::MEDIA_TYPE,
        value is MEDIA_SUBTYPE ==> value.spec_key() == Format::MEDIA_SUBTYPE,
        value is AUDIO_FORMAT ==> value.spec_key() == Format::AUDIO_FORMAT,
        value is AUDIO_FLAGS ==> value.spec_key() == Format::AUDIO_FLAGS,
        value is AUDIO_RATE ==> value.spec_key() == Format::AUDIO_RATE,
        value is AUDIO_CHANNELS ==> value.spec_key() == Format::AUDIO_CHANNELS,
        value is AUDIO_POSITION ==> value.spec_key() == Format::AUDIO_POSITION,
        value is AUDIO_IEC958CODEC ==> value.spec_key() == Format::AUDIO_IEC958CODEC,
        value is AUDIO_BITORDER ==> value.spec_key() == Format::AUDIO_BITORDER,
        value is AUDIO_INTERLEAVE ==> value.spec_key() == Format::AUDIO_INTERLEAVE,
        value is VIDEO_FORMAT ==> value.spec_key() == Format::VIDEO_FORMAT,
        value is VIDEO_MODIFIER ==> value.spec_key() == Format::VIDEO_MODIFIER,
        value is VIDEO_SIZE ==> value.spec_key() == Format::VIDEO_SIZE,
        value is VIDEO_FRAMERATE ==> value.spec_key() == Format::VIDEO_FRAMERATE,
        value is VIDEO_MAX_FRAMERATE ==> value.spec_key() == Format::VIDEO_MAX_FRAMERATE,
        value is VIDEO_VIEWS ==> value.spec_key() == Format::VIDEO_VIEWS,
        value is VIDEO_INTERLACE_MODE ==> value.spec_key() == Format::VIDEO_INTERLACE_MODE,
        value is VIDEO_PIXEL_ASPECT_RATIO ==> value.spec_key() == Format::VIDEO_PIXEL_ASPECT_RATIO,
        value is VIDEO_MULTIVIEW_MODE ==> value.spec_key() == Format::VIDEO_MULTIVIEW_MODE,
        value is VIDEO_MULTIVIEW_FLAGS ==> value.spec_key() == Format::VIDEO_MULTIVIEW_FLAGS,
        value is VIDEO_CHROMA_SITE ==> value.spec_key() == Format::VIDEO_CHROMA_SITE,
        value is VIDEO_COLOR_RANGE ==> value.spec_key() == Format::VIDEO_COLOR_RANGE,
        value is VIDEO_COLOR_MATRIX ==> value.spec_key() == Format::VIDEO_COLOR_MATRIX,
        value is VIDEO_TRANSFER_FUNCTION ==> value.spec_key() == Format::VIDEO_TRANSFER_FUNCTION,
        value is VIDEO_COLOR_PRIMARIES ==> value.spec_key() == Format::VIDEO_COLOR_PRIMARIES,
        value is VIDEO_PROFILE ==> value.spec_key() == Format::VIDEO_PROFILE,
        value is VIDEO_LEVEL ==> value.spec_key() == Format::VIDEO_LEVEL,
        value is VIDEO_H264_STREAM_FORMAT ==> value.spec_key() == Format::VIDEO_H264_STREAM_FORMAT,
        value is VIDEO_H264_ALIGNMENT ==> value.spec_key() == Format::VIDEO_H264_ALIGNMENT,
{
}

} // verus!

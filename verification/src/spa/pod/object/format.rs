//! Props of the format objects: the media type and the fixed properties of a stream.
use vstd::prelude::*;

use crate::spa::pod::object::prop_core::PodPropKeyType;
use crate::spa::pod::PodRef;
use crate::spa::type_::Type;

verus! {

/// Keys of the props of a format object.
pub struct Format;

impl Format {
    pub const START: u32 = 0;
    pub const MEDIA_TYPE: u32 = 1;
    pub const MEDIA_SUBTYPE: u32 = 2;
    pub const START_AUDIO: u32 = 0x10000;
    pub const AUDIO_FORMAT: u32 = 0x10001;
    pub const AUDIO_FLAGS: u32 = 0x10002;
    pub const AUDIO_RATE: u32 = 0x10003;
    pub const AUDIO_CHANNELS: u32 = 0x10004;
    pub const AUDIO_POSITION: u32 = 0x10005;
    pub const AUDIO_IEC958CODEC: u32 = 0x10006;
    pub const AUDIO_BITORDER: u32 = 0x10007;
    pub const AUDIO_INTERLEAVE: u32 = 0x10008;
    pub const START_VIDEO: u32 = 0x20000;
    pub const VIDEO_FORMAT: u32 = 0x20001;
    pub const VIDEO_MODIFIER: u32 = 0x20002;
    pub const VIDEO_SIZE: u32 = 0x20003;
    pub const VIDEO_FRAMERATE: u32 = 0x20004;
    pub const VIDEO_MAX_FRAMERATE: u32 = 0x20005;
    pub const VIDEO_VIEWS: u32 = 0x20006;
    pub const VIDEO_INTERLACE_MODE: u32 = 0x20007;
    pub const VIDEO_PIXEL_ASPECT_RATIO: u32 = 0x20008;
    pub const VIDEO_MULTIVIEW_MODE: u32 = 0x20009;
    pub const VIDEO_MULTIVIEW_FLAGS: u32 = 0x2000a;
    pub const VIDEO_CHROMA_SITE: u32 = 0x2000b;
    pub const VIDEO_COLOR_RANGE: u32 = 0x2000c;
    pub const VIDEO_COLOR_MATRIX: u32 = 0x2000d;
    pub const VIDEO_TRANSFER_FUNCTION: u32 = 0x2000e;
    pub const VIDEO_COLOR_PRIMARIES: u32 = 0x2000f;
    pub const VIDEO_PROFILE: u32 = 0x20010;
    pub const VIDEO_LEVEL: u32 = 0x20011;
    pub const VIDEO_H264_STREAM_FORMAT: u32 = 0x20012;
    pub const VIDEO_H264_ALIGNMENT: u32 = 0x20013;
}

/// A prop of a format object, with fixed values.
/// Each variant holds the pod of the prop, which has the type that the key names.
#[allow(non_camel_case_types)]
#[derive(Debug, Clone, Copy)]
pub enum ObjectFormatType<'a> {
    MEDIA_TYPE(PodRef<'a>),
    MEDIA_SUBTYPE(PodRef<'a>),
    AUDIO_FORMAT(PodRef<'a>),
    AUDIO_FLAGS(PodRef<'a>),
    AUDIO_RATE(PodRef<'a>),
    AUDIO_CHANNELS(PodRef<'a>),
    AUDIO_POSITION(PodRef<'a>),
    AUDIO_IEC958CODEC(PodRef<'a>),
    AUDIO_BITORDER(PodRef<'a>),
    AUDIO_INTERLEAVE(PodRef<'a>),
    VIDEO_FORMAT(PodRef<'a>),
    VIDEO_MODIFIER(PodRef<'a>),
    VIDEO_SIZE(PodRef<'a>),
    VIDEO_FRAMERATE(PodRef<'a>),
    VIDEO_MAX_FRAMERATE(PodRef<'a>),
    VIDEO_VIEWS(PodRef<'a>),
    VIDEO_INTERLACE_MODE(PodRef<'a>),
    VIDEO_PIXEL_ASPECT_RATIO(PodRef<'a>),
    VIDEO_MULTIVIEW_MODE(PodRef<'a>),
    VIDEO_MULTIVIEW_FLAGS(PodRef<'a>),
    VIDEO_CHROMA_SITE(PodRef<'a>),
    VIDEO_COLOR_RANGE(PodRef<'a>),
    VIDEO_COLOR_MATRIX(PodRef<'a>),
    VIDEO_TRANSFER_FUNCTION(PodRef<'a>),
    VIDEO_COLOR_PRIMARIES(PodRef<'a>),
    VIDEO_PROFILE(PodRef<'a>),
    VIDEO_LEVEL(PodRef<'a>),
    VIDEO_H264_STREAM_FORMAT(PodRef<'a>),
    VIDEO_H264_ALIGNMENT(PodRef<'a>),
}

impl<'a> PodPropKeyType<'a> for ObjectFormatType<'a> {
    open spec fn spec_key_type(key: u32) -> Option<u32> {
        if key == Format::MEDIA_TYPE {
            Some(Type::ID)
        } else if key == Format::MEDIA_SUBTYPE {
            Some(Type::ID)
        } else if key == Format::AUDIO_FORMAT {
            Some(Type::ID)
        } else if key == Format::AUDIO_FLAGS {
            Some(Type::INT)
        } else if key == Format::AUDIO_RATE {
            Some(Type::INT)
        } else if key == Format::AUDIO_CHANNELS {
            Some(Type::INT)
        } else if key == Format::AUDIO_POSITION {
            Some(Type::ARRAY)
        } else if key == Format::AUDIO_IEC958CODEC {
            Some(Type::ID)
        } else if key == Format::AUDIO_BITORDER {
            Some(Type::ID)
        } else if key == Format::AUDIO_INTERLEAVE {
            Some(Type::INT)
        } else if key == Format::VIDEO_FORMAT {
            Some(Type::ID)
        } else if key == Format::VIDEO_MODIFIER {
            Some(Type::LONG)
        } else if key == Format::VIDEO_SIZE {
            Some(Type::RECTANGLE)
        } else if key == Format::VIDEO_FRAMERATE {
            Some(Type::FRACTION)
        } else if key == Format::VIDEO_MAX_FRAMERATE {
            Some(Type::FRACTION)
        } else if key == Format::VIDEO_VIEWS {
            Some(Type::INT)
        } else if key == Format::VIDEO_INTERLACE_MODE {
            Some(Type::ID)
        } else if key == Format::VIDEO_PIXEL_ASPECT_RATIO {
            Some(Type::RECTANGLE)
        } else if key == Format::VIDEO_MULTIVIEW_MODE {
            Some(Type::ID)
        } else if key == Format::VIDEO_MULTIVIEW_FLAGS {
            Some(Type::ID)
        } else if key == Format::VIDEO_CHROMA_SITE {
            Some(Type::ID)
        } else if key == Format::VIDEO_COLOR_RANGE {
            Some(Type::ID)
        } else if key == Format::VIDEO_COLOR_MATRIX {
            Some(Type::ID)
        } else if key == Format::VIDEO_TRANSFER_FUNCTION {
            Some(Type::ID)
        } else if key == Format::VIDEO_COLOR_PRIMARIES {
            Some(Type::ID)
        } else if key == Format::VIDEO_PROFILE {
            Some(Type::INT)
        } else if key == Format::VIDEO_LEVEL {
            Some(Type::INT)
        } else if key == Format::VIDEO_H264_STREAM_FORMAT {
            Some(Type::ID)
        } else if key == Format::VIDEO_H264_ALIGNMENT {
            Some(Type::ID)
        } else {
            None
        }
    }

    open spec fn spec_key(&self) -> u32 {
        match *self {
            ObjectFormatType::MEDIA_TYPE(_) => Format::MEDIA_TYPE,
            ObjectFormatType::MEDIA_SUBTYPE(_) => Format::MEDIA_SUBTYPE,
            ObjectFormatType::AUDIO_FORMAT(_) => Format::AUDIO_FORMAT,
            ObjectFormatType::AUDIO_FLAGS(_) => Format::AUDIO_FLAGS,
            ObjectFormatType::AUDIO_RATE(_) => Format::AUDIO_RATE,
            ObjectFormatType::AUDIO_CHANNELS(_) => Format::AUDIO_CHANNELS,
            ObjectFormatType::AUDIO_POSITION(_) => Format::AUDIO_POSITION,
            ObjectFormatType::AUDIO_IEC958CODEC(_) => Format::AUDIO_IEC958CODEC,
            ObjectFormatType::AUDIO_BITORDER(_) => Format::AUDIO_BITORDER,
            ObjectFormatType::AUDIO_INTERLEAVE(_) => Format::AUDIO_INTERLEAVE,
            ObjectFormatType::VIDEO_FORMAT(_) => Format::VIDEO_FORMAT,
            ObjectFormatType::VIDEO_MODIFIER(_) => Format::VIDEO_MODIFIER,
            ObjectFormatType::VIDEO_SIZE(_) => Format::VIDEO_SIZE,
            ObjectFormatType::VIDEO_FRAMERATE(_) => Format::VIDEO_FRAMERATE,
            ObjectFormatType::VIDEO_MAX_FRAMERATE(_) => Format::VIDEO_MAX_FRAMERATE,
            ObjectFormatType::VIDEO_VIEWS(_) => Format::VIDEO_VIEWS,
            ObjectFormatType::VIDEO_INTERLACE_MODE(_) => Format::VIDEO_INTERLACE_MODE,
            ObjectFormatType::VIDEO_PIXEL_ASPECT_RATIO(_) => Format::VIDEO_PIXEL_ASPECT_RATIO,
            ObjectFormatType::VIDEO_MULTIVIEW_MODE(_) => Format::VIDEO_MULTIVIEW_MODE,
            ObjectFormatType::VIDEO_MULTIVIEW_FLAGS(_) => Format::VIDEO_MULTIVIEW_FLAGS,
            ObjectFormatType::VIDEO_CHROMA_SITE(_) => Format::VIDEO_CHROMA_SITE,
            ObjectFormatType::VIDEO_COLOR_RANGE(_) => Format::VIDEO_COLOR_RANGE,
            ObjectFormatType::VIDEO_COLOR_MATRIX(_) => Format::VIDEO_COLOR_MATRIX,
            ObjectFormatType::VIDEO_TRANSFER_FUNCTION(_) => Format::VIDEO_TRANSFER_FUNCTION,
            ObjectFormatType::VIDEO_COLOR_PRIMARIES(_) => Format::VIDEO_COLOR_PRIMARIES,
            ObjectFormatType::VIDEO_PROFILE(_) => Format::VIDEO_PROFILE,
            ObjectFormatType::VIDEO_LEVEL(_) => Format::VIDEO_LEVEL,
            ObjectFormatType::VIDEO_H264_STREAM_FORMAT(_) => Format::VIDEO_H264_STREAM_FORMAT,
            ObjectFormatType::VIDEO_H264_ALIGNMENT(_) => Format::VIDEO_H264_ALIGNMENT,
        }
    }

    open spec fn spec_pod(&self) -> PodRef<'a> {
        match *self {
            ObjectFormatType::MEDIA_TYPE(pod) => pod,
            ObjectFormatType::MEDIA_SUBTYPE(pod) => pod,
            ObjectFormatType::AUDIO_FORMAT(pod) => pod,
            ObjectFormatType::AUDIO_FLAGS(pod) => pod,
            ObjectFormatType::AUDIO_RATE(pod) => pod,
            ObjectFormatType::AUDIO_CHANNELS(pod) => pod,
            ObjectFormatType::AUDIO_POSITION(pod) => pod,
            ObjectFormatType::AUDIO_IEC958CODEC(pod) => pod,
            ObjectFormatType::AUDIO_BITORDER(pod) => pod,
            ObjectFormatType::AUDIO_INTERLEAVE(pod) => pod,
            ObjectFormatType::VIDEO_FORMAT(pod) => pod,
            ObjectFormatType::VIDEO_MODIFIER(pod) => pod,
            ObjectFormatType::VIDEO_SIZE(pod) => pod,
            ObjectFormatType::VIDEO_FRAMERATE(pod) => pod,
            ObjectFormatType::VIDEO_MAX_FRAMERATE(pod) => pod,
            ObjectFormatType::VIDEO_VIEWS(pod) => pod,
            ObjectFormatType::VIDEO_INTERLACE_MODE(pod) => pod,
            ObjectFormatType::VIDEO_PIXEL_ASPECT_RATIO(pod) => pod,
            ObjectFormatType::VIDEO_MULTIVIEW_MODE(pod) => pod,
            ObjectFormatType::VIDEO_MULTIVIEW_FLAGS(pod) => pod,
            ObjectFormatType::VIDEO_CHROMA_SITE(pod) => pod,
            ObjectFormatType::VIDEO_COLOR_RANGE(pod) => pod,
            ObjectFormatType::VIDEO_COLOR_MATRIX(pod) => pod,
            ObjectFormatType::VIDEO_TRANSFER_FUNCTION(pod) => pod,
            ObjectFormatType::VIDEO_COLOR_PRIMARIES(pod) => pod,
            ObjectFormatType::VIDEO_PROFILE(pod) => pod,
            ObjectFormatType::VIDEO_LEVEL(pod) => pod,
            ObjectFormatType::VIDEO_H264_STREAM_FORMAT(pod) => pod,
            ObjectFormatType::VIDEO_H264_ALIGNMENT(pod) => pod,
        }
    }

    proof fn lemma_key_known(&self) {
    }

    fn key_type(key: u32) -> Option<u32> {
        if key == Format::MEDIA_TYPE {
            Some(Type::ID)
        } else if key == Format::MEDIA_SUBTYPE {
            Some(Type::ID)
        } else if key == Format::AUDIO_FORMAT {
            Some(Type::ID)
        } else if key == Format::AUDIO_FLAGS {
            Some(Type::INT)
        } else if key == Format::AUDIO_RATE {
            Some(Type::INT)
        } else if key == Format::AUDIO_CHANNELS {
            Some(Type::INT)
        } else if key == Format::AUDIO_POSITION {
            Some(Type::ARRAY)
        } else if key == Format::AUDIO_IEC958CODEC {
            Some(Type::ID)
        } else if key == Format::AUDIO_BITORDER {
            Some(Type::ID)
        } else if key == Format::AUDIO_INTERLEAVE {
            Some(Type::INT)
        } else if key == Format::VIDEO_FORMAT {
            Some(Type::ID)
        } else if key == Format::VIDEO_MODIFIER {
            Some(Type::LONG)
        } else if key == Format::VIDEO_SIZE {
            Some(Type::RECTANGLE)
        } else if key == Format::VIDEO_FRAMERATE {
            Some(Type::FRACTION)
        } else if key == Format::VIDEO_MAX_FRAMERATE {
            Some(Type::FRACTION)
        } else if key == Format::VIDEO_VIEWS {
            Some(Type::INT)
        } else if key == Format::VIDEO_INTERLACE_MODE {
            Some(Type::ID)
        } else if key == Format::VIDEO_PIXEL_ASPECT_RATIO {
            Some(Type::RECTANGLE)
        } else if key == Format::VIDEO_MULTIVIEW_MODE {
            Some(Type::ID)
        } else if key == Format::VIDEO_MULTIVIEW_FLAGS {
            Some(Type::ID)
        } else if key == Format::VIDEO_CHROMA_SITE {
            Some(Type::ID)
        } else if key == Format::VIDEO_COLOR_RANGE {
            Some(Type::ID)
        } else if key == Format::VIDEO_COLOR_MATRIX {
            Some(Type::ID)
        } else if key == Format::VIDEO_TRANSFER_FUNCTION {
            Some(Type::ID)
        } else if key == Format::VIDEO_COLOR_PRIMARIES {
            Some(Type::ID)
        } else if key == Format::VIDEO_PROFILE {
            Some(Type::INT)
        } else if key == Format::VIDEO_LEVEL {
            Some(Type::INT)
        } else if key == Format::VIDEO_H264_STREAM_FORMAT {
            Some(Type::ID)
        } else if key == Format::VIDEO_H264_ALIGNMENT {
            Some(Type::ID)
        } else {
            None
        }
    }

    fn from_key_and_pod(key: u32, pod: PodRef<'a>) -> Self {
        if key == Format::MEDIA_TYPE {
            ObjectFormatType::MEDIA_TYPE(pod)
        } else if key == Format::MEDIA_SUBTYPE {
            ObjectFormatType::MEDIA_SUBTYPE(pod)
        } else if key == Format::AUDIO_FORMAT {
            ObjectFormatType::AUDIO_FORMAT(pod)
        } else if key == Format::AUDIO_FLAGS {
            ObjectFormatType::AUDIO_FLAGS(pod)
        } else if key == Format::AUDIO_RATE {
            ObjectFormatType::AUDIO_RATE(pod)
        } else if key == Format::AUDIO_CHANNELS {
            ObjectFormatType::AUDIO_CHANNELS(pod)
        } else if key == Format::AUDIO_POSITION {
            ObjectFormatType::AUDIO_POSITION(pod)
        } else if key == Format::AUDIO_IEC958CODEC {
            ObjectFormatType::AUDIO_IEC958CODEC(pod)
        } else if key == Format::AUDIO_BITORDER {
            ObjectFormatType::AUDIO_BITORDER(pod)
        } else if key == Format::AUDIO_INTERLEAVE {
            ObjectFormatType::AUDIO_INTERLEAVE(pod)
        } else if key == Format::VIDEO_FORMAT {
            ObjectFormatType::VIDEO_FORMAT(pod)
        } else if key == Format::VIDEO_MODIFIER {
            ObjectFormatType::VIDEO_MODIFIER(pod)
        } else if key == Format::VIDEO_SIZE {
            ObjectFormatType::VIDEO_SIZE(pod)
        } else if key == Format::VIDEO_FRAMERATE {
            ObjectFormatType::VIDEO_FRAMERATE(pod)
        } else if key == Format::VIDEO_MAX_FRAMERATE {
            ObjectFormatType::VIDEO_MAX_FRAMERATE(pod)
        } else if key == Format::VIDEO_VIEWS {
            ObjectFormatType::VIDEO_VIEWS(pod)
        } else if key == Format::VIDEO_INTERLACE_MODE {
            ObjectFormatType::VIDEO_INTERLACE_MODE(pod)
        } else if key == Format::VIDEO_PIXEL_ASPECT_RATIO {
            ObjectFormatType::VIDEO_PIXEL_ASPECT_RATIO(pod)
        } else if key == Format::VIDEO_MULTIVIEW_MODE {
            ObjectFormatType::VIDEO_MULTIVIEW_MODE(pod)
        } else if key == Format::VIDEO_MULTIVIEW_FLAGS {
            ObjectFormatType::VIDEO_MULTIVIEW_FLAGS(pod)
        } else if key == Format::VIDEO_CHROMA_SITE {
            ObjectFormatType::VIDEO_CHROMA_SITE(pod)
        } else if key == Format::VIDEO_COLOR_RANGE {
            ObjectFormatType::VIDEO_COLOR_RANGE(pod)
        } else if key == Format::VIDEO_COLOR_MATRIX {
            ObjectFormatType::VIDEO_COLOR_MATRIX(pod)
        } else if key == Format::VIDEO_TRANSFER_FUNCTION {
            ObjectFormatType::VIDEO_TRANSFER_FUNCTION(pod)
        } else if key == Format::VIDEO_COLOR_PRIMARIES {
            ObjectFormatType::VIDEO_COLOR_PRIMARIES(pod)
        } else if key == Format::VIDEO_PROFILE {
            ObjectFormatType::VIDEO_PROFILE(pod)
        } else if key == Format::VIDEO_LEVEL {
            ObjectFormatType::VIDEO_LEVEL(pod)
        } else if key == Format::VIDEO_H264_STREAM_FORMAT {
            ObjectFormatType::VIDEO_H264_STREAM_FORMAT(pod)
        } else if key == Format::VIDEO_H264_ALIGNMENT {
            ObjectFormatType::VIDEO_H264_ALIGNMENT(pod)
        } else {
            vstd::pervasive::unreached()
        }
    }

    fn key(&self) -> u32 {
        match self {
            ObjectFormatType::MEDIA_TYPE(_) => Format::MEDIA_TYPE,
            ObjectFormatType::MEDIA_SUBTYPE(_) => Format::MEDIA_SUBTYPE,
            ObjectFormatType::AUDIO_FORMAT(_) => Format::AUDIO_FORMAT,
            ObjectFormatType::AUDIO_FLAGS(_) => Format::AUDIO_FLAGS,
            ObjectFormatType::AUDIO_RATE(_) => Format::AUDIO_RATE,
            ObjectFormatType::AUDIO_CHANNELS(_) => Format::AUDIO_CHANNELS,
            ObjectFormatType::AUDIO_POSITION(_) => Format::AUDIO_POSITION,
            ObjectFormatType::AUDIO_IEC958CODEC(_) => Format::AUDIO_IEC958CODEC,
            ObjectFormatType::AUDIO_BITORDER(_) => Format::AUDIO_BITORDER,
            ObjectFormatType::AUDIO_INTERLEAVE(_) => Format::AUDIO_INTERLEAVE,
            ObjectFormatType::VIDEO_FORMAT(_) => Format::VIDEO_FORMAT,
            ObjectFormatType::VIDEO_MODIFIER(_) => Format::VIDEO_MODIFIER,
            ObjectFormatType::VIDEO_SIZE(_) => Format::VIDEO_SIZE,
            ObjectFormatType::VIDEO_FRAMERATE(_) => Format::VIDEO_FRAMERATE,
            ObjectFormatType::VIDEO_MAX_FRAMERATE(_) => Format::VIDEO_MAX_FRAMERATE,
            ObjectFormatType::VIDEO_VIEWS(_) => Format::VIDEO_VIEWS,
            ObjectFormatType::VIDEO_INTERLACE_MODE(_) => Format::VIDEO_INTERLACE_MODE,
            ObjectFormatType::VIDEO_PIXEL_ASPECT_RATIO(_) => Format::VIDEO_PIXEL_ASPECT_RATIO,
            ObjectFormatType::VIDEO_MULTIVIEW_MODE(_) => Format::VIDEO_MULTIVIEW_MODE,
            ObjectFormatType::VIDEO_MULTIVIEW_FLAGS(_) => Format::VIDEO_MULTIVIEW_FLAGS,
            ObjectFormatType::VIDEO_CHROMA_SITE(_) => Format::VIDEO_CHROMA_SITE,
            ObjectFormatType::VIDEO_COLOR_RANGE(_) => Format::VIDEO_COLOR_RANGE,
            ObjectFormatType::VIDEO_COLOR_MATRIX(_) => Format::VIDEO_COLOR_MATRIX,
            ObjectFormatType::VIDEO_TRANSFER_FUNCTION(_) => Format::VIDEO_TRANSFER_FUNCTION,
            ObjectFormatType::VIDEO_COLOR_PRIMARIES(_) => Format::VIDEO_COLOR_PRIMARIES,
            ObjectFormatType::VIDEO_PROFILE(_) => Format::VIDEO_PROFILE,
            ObjectFormatType::VIDEO_LEVEL(_) => Format::VIDEO_LEVEL,
            ObjectFormatType::VIDEO_H264_STREAM_FORMAT(_) => Format::VIDEO_H264_STREAM_FORMAT,
            ObjectFormatType::VIDEO_H264_ALIGNMENT(_) => Format::VIDEO_H264_ALIGNMENT,
        }
    }

    fn pod(&self) -> PodRef<'a> {
        match self {
            ObjectFormatType::MEDIA_TYPE(pod) => *pod,
            ObjectFormatType::MEDIA_SUBTYPE(pod) => *pod,
            ObjectFormatType::AUDIO_FORMAT(pod) => *pod,
            ObjectFormatType::AUDIO_FLAGS(pod) => *pod,
            ObjectFormatType::AUDIO_RATE(pod) => *pod,
            ObjectFormatType::AUDIO_CHANNELS(pod) => *pod,
            ObjectFormatType::AUDIO_POSITION(pod) => *pod,
            ObjectFormatType::AUDIO_IEC958CODEC(pod) => *pod,
            ObjectFormatType::AUDIO_BITORDER(pod) => *pod,
            ObjectFormatType::AUDIO_INTERLEAVE(pod) => *pod,
            ObjectFormatType::VIDEO_FORMAT(pod) => *pod,
            ObjectFormatType::VIDEO_MODIFIER(pod) => *pod,
            ObjectFormatType::VIDEO_SIZE(pod) => *pod,
            ObjectFormatType::VIDEO_FRAMERATE(pod) => *pod,
            ObjectFormatType::VIDEO_MAX_FRAMERATE(pod) => *pod,
            ObjectFormatType::VIDEO_VIEWS(pod) => *pod,
            ObjectFormatType::VIDEO_INTERLACE_MODE(pod) => *pod,
            ObjectFormatType::VIDEO_PIXEL_ASPECT_RATIO(pod) => *pod,
            ObjectFormatType::VIDEO_MULTIVIEW_MODE(pod) => *pod,
            ObjectFormatType::VIDEO_MULTIVIEW_FLAGS(pod) => *pod,
            ObjectFormatType::VIDEO_CHROMA_SITE(pod) => *pod,
            ObjectFormatType::VIDEO_COLOR_RANGE(pod) => *pod,
            ObjectFormatType::VIDEO_COLOR_MATRIX(pod) => *pod,
            ObjectFormatType::VIDEO_TRANSFER_FUNCTION(pod) => *pod,
            ObjectFormatType::VIDEO_COLOR_PRIMARIES(pod) => *pod,
            ObjectFormatType::VIDEO_PROFILE(pod) => *pod,
            ObjectFormatType::VIDEO_LEVEL(pod) => *pod,
            ObjectFormatType::VIDEO_H264_STREAM_FORMAT(pod) => *pod,
            ObjectFormatType::VIDEO_H264_ALIGNMENT(pod) => *pod,
        }
    }
}

/// Media types.
pub struct MediaType;

impl MediaType {
    pub const UNKNOWN: u32 = 0;
    pub const AUDIO: u32 = 1;
    pub const VIDEO: u32 = 2;
    pub const IMAGE: u32 = 3;
    pub const BINARY: u32 = 4;
    pub const STREAM: u32 = 5;
    pub const APPLICATION: u32 = 6;
}

/// Media subtypes.
pub struct MediaSubType;

impl MediaSubType {
    pub const UNKNOWN: u32 = 0;
    pub const RAW: u32 = 1;
    pub const DSP: u32 = 2;
    pub const IEC958: u32 = 3;
    pub const DSD: u32 = 4;
    pub const START_AUDIO: u32 = 0x10000;
    pub const MP3: u32 = 0x10001;
    pub const AAC: u32 = 0x10002;
    pub const VORBIS: u32 = 0x10003;
    pub const WMA: u32 = 0x10004;
    pub const RA: u32 = 0x10005;
    pub const SBC: u32 = 0x10006;
    pub const ADPCM: u32 = 0x10007;
    pub const G723: u32 = 0x10008;
    pub const G726: u32 = 0x10009;
    pub const G729: u32 = 0x1000a;
    pub const AMR: u32 = 0x1000b;
    pub const GSM: u32 = 0x1000c;
    pub const START_VIDEO: u32 = 0x20000;
    pub const H264: u32 = 0x20001;
    pub const MJPG: u32 = 0x20002;
    pub const DV: u32 = 0x20003;
    pub const MPEGTS: u32 = 0x20004;
    pub const H263: u32 = 0x20005;
    pub const MPEG1: u32 = 0x20006;
    pub const MPEG2: u32 = 0x20007;
    pub const MPEG4: u32 = 0x20008;
    pub const XVID: u32 = 0x20009;
    pub const VC1: u32 = 0x2000a;
    pub const VP8: u32 = 0x2000b;
    pub const VP9: u32 = 0x2000c;
    pub const BAYER: u32 = 0x2000d;
}

/// Audio sample formats; the unsuffixed names are the native little-endian ones.
pub struct AudioFormat;

impl AudioFormat {
    pub const UNKNOWN: u32 = 0;
    pub const ENCODED: u32 = 1;
    pub const START_INTERLEAVED: u32 = 0x100;
    pub const S8: u32 = 0x101;
    pub const U8: u32 = 0x102;
    pub const S16_LE: u32 = 0x103;
    pub const S16_BE: u32 = 0x104;
    pub const U16_LE: u32 = 0x105;
    pub const U16_BE: u32 = 0x106;
    pub const S24_32_LE: u32 = 0x107;
    pub const S24_32_BE: u32 = 0x108;
    pub const U24_32_LE: u32 = 0x109;
    pub const U24_32_BE: u32 = 0x10a;
    pub const S32_LE: u32 = 0x10b;
    pub const S32_BE: u32 = 0x10c;
    pub const U32_LE: u32 = 0x10d;
    pub const U32_BE: u32 = 0x10e;
    pub const S24_LE: u32 = 0x10f;
    pub const S24_BE: u32 = 0x110;
    pub const U24_LE: u32 = 0x111;
    pub const U24_BE: u32 = 0x112;
    pub const S20_LE: u32 = 0x113;
    pub const S20_BE: u32 = 0x114;
    pub const U20_LE: u32 = 0x115;
    pub const U20_BE: u32 = 0x116;
    pub const S18_LE: u32 = 0x117;
    pub const S18_BE: u32 = 0x118;
    pub const U18_LE: u32 = 0x119;
    pub const U18_BE: u32 = 0x11a;
    pub const F32_LE: u32 = 0x11b;
    pub const F32_BE: u32 = 0x11c;
    pub const F64_LE: u32 = 0x11d;
    pub const F64_BE: u32 = 0x11e;
    pub const ULAW: u32 = 0x11f;
    pub const ALAW: u32 = 0x120;
    pub const START_PLANAR: u32 = 0x200;
    pub const U8P: u32 = 0x201;
    pub const S16P: u32 = 0x202;
    pub const S24_32P: u32 = 0x203;
    pub const S32P: u32 = 0x204;
    pub const S24P: u32 = 0x205;
    pub const F32P: u32 = 0x206;
    pub const F64P: u32 = 0x207;
    pub const S8P: u32 = 0x208;
    pub const START_OTHER: u32 = 0x400;
    pub const DSP_S32: u32 = 0x401;
    pub const DSP_F32: u32 = 0x402;
    pub const DSP_F64: u32 = 0x403;
    pub const S16: u32 = 0x103;
    pub const U16: u32 = 0x105;
    pub const S24_32: u32 = 0x107;
    pub const U24_32: u32 = 0x109;
    pub const S32: u32 = 0x10b;
    pub const U32: u32 = 0x10d;
    pub const S24: u32 = 0x10f;
    pub const U24: u32 = 0x111;
    pub const S20: u32 = 0x113;
    pub const U20: u32 = 0x115;
    pub const S18: u32 = 0x117;
    pub const U18: u32 = 0x119;
    pub const F32: u32 = 0x11b;
    pub const F64: u32 = 0x11d;
}

} // verus!

verus! {

/// The pod type that each key of a [ObjectFormatType] prop is read as, fixed by SPA, with every
/// other key unknown; and the key that each variant is written with. A prop whose pod has
/// its key's type reads back as the variant of that key.
pub proof fn lemma_key_table<'a>(key: u32, value: ObjectFormatType<'a>)
    ensures
        ObjectFormatType::spec_key_type(Format::MEDIA_TYPE) == Some(Type::ID),
        ObjectFormatType::spec_key_type(Format::MEDIA_SUBTYPE) == Some(Type::ID),
        ObjectFormatType::spec_key_type(Format::AUDIO_FORMAT) == Some(Type::ID),
        ObjectFormatType::spec_key_type(Format::AUDIO_FLAGS) == Some(Type::INT),
        ObjectFormatType::spec_key_type(Format::AUDIO_RATE) == Some(Type::INT),
        ObjectFormatType::spec_key_type(Format::AUDIO_CHANNELS) == Some(Type::INT),
        ObjectFormatType::spec_key_type(Format::AUDIO_POSITION) == Some(Type::ARRAY),
        ObjectFormatType::spec_key_type(Format::AUDIO_IEC958CODEC) == Some(Type::ID),
        ObjectFormatType::spec_key_type(Format::AUDIO_BITORDER) == Some(Type::ID),
        ObjectFormatType::spec_key_type(Format::AUDIO_INTERLEAVE) == Some(Type::INT),
        ObjectFormatType::spec_key_type(Format::VIDEO_FORMAT) == Some(Type::ID),
        ObjectFormatType::spec_key_type(Format::VIDEO_MODIFIER) == Some(Type::LONG),
        ObjectFormatType::spec_key_type(Format::VIDEO_SIZE) == Some(Type::RECTANGLE),
        ObjectFormatType::spec_key_type(Format::VIDEO_FRAMERATE) == Some(Type::FRACTION),
        ObjectFormatType::spec_key_type(Format::VIDEO_MAX_FRAMERATE) == Some(Type::FRACTION),
        ObjectFormatType::spec_key_type(Format::VIDEO_VIEWS) == Some(Type::INT),
        ObjectFormatType::spec_key_type(Format::VIDEO_INTERLACE_MODE) == Some(Type::ID),
        ObjectFormatType::spec_key_type(Format::VIDEO_PIXEL_ASPECT_RATIO) == Some(Type::RECTANGLE),
        ObjectFormatType::spec_key_type(Format::VIDEO_MULTIVIEW_MODE) == Some(Type::ID),
        ObjectFormatType::spec_key_type(Format::VIDEO_MULTIVIEW_FLAGS) == Some(Type::ID),
        ObjectFormatType::spec_key_type(Format::VIDEO_CHROMA_SITE) == Some(Type::ID),
        ObjectFormatType::spec_key_type(Format::VIDEO_COLOR_RANGE) == Some(Type::ID),
        ObjectFormatType::spec_key_type(Format::VIDEO_COLOR_MATRIX) == Some(Type::ID),
        ObjectFormatType::spec_key_type(Format::VIDEO_TRANSFER_FUNCTION) == Some(Type::ID),
        ObjectFormatType::spec_key_type(Format::VIDEO_COLOR_PRIMARIES) == Some(Type::ID),
        ObjectFormatType::spec_key_type(Format::VIDEO_PROFILE) == Some(Type::INT),
        ObjectFormatType::spec_key_type(Format::VIDEO_LEVEL) == Some(Type::INT),
        ObjectFormatType::spec_key_type(Format::VIDEO_H264_STREAM_FORMAT) == Some(Type::ID),
        ObjectFormatType::spec_key_type(Format::VIDEO_H264_ALIGNMENT) == Some(Type::ID),
        (key != Format::MEDIA_TYPE && key != Format::MEDIA_SUBTYPE && key != Format::AUDIO_FORMAT && key != Format::AUDIO_FLAGS && key != Format::AUDIO_RATE && key != Format::AUDIO_CHANNELS && key != Format::AUDIO_POSITION && key != Format::AUDIO_IEC958CODEC && key != Format::AUDIO_BITORDER && key != Format::AUDIO_INTERLEAVE && key != Format::VIDEO_FORMAT && key != Format::VIDEO_MODIFIER && key != Format::VIDEO_SIZE && key != Format::VIDEO_FRAMERATE && key != Format::VIDEO_MAX_FRAMERATE && key != Format::VIDEO_VIEWS && key != Format::VIDEO_INTERLACE_MODE && key != Format::VIDEO_PIXEL_ASPECT_RATIO && key != Format::VIDEO_MULTIVIEW_MODE && key != Format::VIDEO_MULTIVIEW_FLAGS && key != Format::VIDEO_CHROMA_SITE && key != Format::VIDEO_COLOR_RANGE && key != Format::VIDEO_COLOR_MATRIX && key != Format::VIDEO_TRANSFER_FUNCTION && key != Format::VIDEO_COLOR_PRIMARIES && key != Format::VIDEO_PROFILE && key != Format::VIDEO_LEVEL && key != Format::VIDEO_H264_STREAM_FORMAT && key != Format::VIDEO_H264_ALIGNMENT) ==> ObjectFormatType::spec_key_type(key) is None,
        value is MEDIA_TYPE ==> value.spec_key() == Format::MEDIA_TYPE,
        value is MEDIA_SUBTYPE ==> value.spec_key() == Format::MEDIA_SUBTYPE,
        value is AUDIO_FORMAT ==> value.spec_key() == Format::AUDIO_FORMAT,
        value is AUDIO_FLAGS ==> value.spec_key() == Format::AUDIO_FLAGS,
        value is AUDIO_RATE ==> value.spec_key() == Format::AUDIO_RATE,
        value is AUDIO_CHANNELS ==> value.spec_key() == Format::AUDIO_CHANNELS,
        value is AUDIO_POSITION ==> value.spec_key() == Format::AUDIO_POSITION,
        value is AUDIO_IEC958CODEC ==> value.spec_key() == Format::AUDIO_IEC958CODEC,
        value is AUDIO_BITORDER ==> value.spec_key() == Format::AUDIO_BITORDER,
        value is AUDIO_INTERLEAVE ==> value.spec_key() == Format::AUDIO_INTERLEAVE,
        value is VIDEO_FORMAT ==> value.spec_key() == Format::VIDEO_FORMAT,
        value is VIDEO_MODIFIER ==> value.spec_key() == Format::VIDEO_MODIFIER,
        value is VIDEO_SIZE ==> value.spec_key() == Format::VIDEO_SIZE,
        value is VIDEO_FRAMERATE ==> value.spec_key() == Format::VIDEO_FRAMERATE,
        value is VIDEO_MAX_FRAMERATE ==> value.spec_key() == Format::VIDEO_MAX_FRAMERATE,
        value is VIDEO_VIEWS ==> value.spec_key() == Format::VIDEO_VIEWS,
        value is VIDEO_INTERLACE_MODE ==> value.spec_key() == Format::VIDEO_INTERLACE_MODE,
        value is VIDEO_PIXEL_ASPECT_RATIO ==> value.spec_key() == Format::VIDEO_PIXEL_ASPECT_RATIO,
        value is VIDEO_MULTIVIEW_MODE ==> value.spec_key() == Format::VIDEO_MULTIVIEW_MODE,
        value is VIDEO_MULTIVIEW_FLAGS ==> value.spec_key() == Format::VIDEO_MULTIVIEW_FLAGS,
        value is VIDEO_CHROMA_SITE ==> value.spec_key() == Format::VIDEO_CHROMA_SITE,
        value is VIDEO_COLOR_RANGE ==> value.spec_key() == Format::VIDEO_COLOR_RANGE,
        value is VIDEO_COLOR_MATRIX ==> value.spec_key() == Format::VIDEO_COLOR_MATRIX,
        value is VIDEO_TRANSFER_FUNCTION ==> value.spec_key() == Format::VIDEO_TRANSFER_FUNCTION,
        value is VIDEO_COLOR_PRIMARIES ==> value.spec_key() == Format::VIDEO_COLOR_PRIMARIES,
        value is VIDEO_PROFILE ==> value.spec_key() == Format::VIDEO_PROFILE,
        value is VIDEO_LEVEL ==> value.spec_key() == Format::VIDEO_LEVEL,
        value is VIDEO_H264_STREAM_FORMAT ==> value.spec_key() == Format::VIDEO_H264_STREAM_FORMAT,
        value is VIDEO_H264_ALIGNMENT ==> value.spec_key() == Format::VIDEO_H264_ALIGNMENT,
{
}

} // verus!

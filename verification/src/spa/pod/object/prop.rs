//! Props of the props objects: device, audio and video controls.
use vstd::prelude::*;

use crate::spa::pod::object::prop_core::PodPropKeyType;
use crate::spa::pod::PodRef;
use crate::spa::type_::Type;

verus! {

/// Keys of the props of a props object.
pub struct Prop;

impl Prop {
    pub const START: u32 = 0;
    pub const UNKNOWN: u32 = 1;
    pub const START_DEVICE: u32 = 0x100;
    pub const DEVICE: u32 = 0x101;
    pub const DEVICE_NAME: u32 = 0x102;
    pub const DEVICE_FD: u32 = 0x103;
    pub const CARD: u32 = 0x104;
    pub const CARD_NAME: u32 = 0x105;
    pub const MIN_LATENCY: u32 = 0x106;
    pub const MAX_LATENCY: u32 = 0x107;
    pub const PERIODS: u32 = 0x108;
    pub const PERIOD_SIZE: u32 = 0x109;
    pub const PERIOD_EVENT: u32 = 0x10a;
    pub const LIVE: u32 = 0x10b;
    pub const RATE: u32 = 0x10c;
    pub const QUALITY: u32 = 0x10d;
    pub const BLUETOOTH_AUDIO_CODEC: u32 = 0x10e;
    pub const START_AUDIO: u32 = 0x10000;
    pub const WAVE_TYPE: u32 = 0x10001;
    pub const FREQUENCY: u32 = 0x10002;
    pub const VOLUME: u32 = 0x10003;
    pub const MUTE: u32 = 0x10004;
    pub const PATTERN_TYPE: u32 = 0x10005;
    pub const DITHER_TYPE: u32 = 0x10006;
    pub const TRUNCATE: u32 = 0x10007;
    pub const CHANNEL_VOLUMES: u32 = 0x10008;
    pub const VOLUME_BASE: u32 = 0x10009;
    pub const VOLUME_STEP: u32 = 0x1000a;
    pub const CHANNEL_MAP: u32 = 0x1000b;
    pub const MONITOR_MUTE: u32 = 0x1000c;
    pub const MONITOR_VOLUMES: u32 = 0x1000d;
    pub const LATENCY_OFFSET_NSEC: u32 = 0x1000e;
    pub const SOFT_MUTE: u32 = 0x1000f;
    pub const SOFT_VOLUMES: u32 = 0x10010;
    pub const IEC958_CODECS: u32 = 0x10011;
    pub const START_VIDEO: u32 = 0x20000;
    pub const BRIGHTNESS: u32 = 0x20001;
    pub const CONTRAST: u32 = 0x20002;
    pub const SATURATION: u32 = 0x20003;
    pub const HUE: u32 = 0x20004;
    pub const GAMMA: u32 = 0x20005;
    pub const EXPOSURE: u32 = 0x20006;
    pub const GAIN: u32 = 0x20007;
    pub const SHARPNESS: u32 = 0x20008;
    pub const START_OTHER: u32 = 0x80000;
    pub const PARAMS: u32 = 0x80001;
    pub const START_CUSTOM: u32 = 0x1000000;
}

/// A prop of a props object.
/// Each variant holds the pod of the prop, which has the type that the key names.
#[allow(non_camel_case_types)]
#[derive(Debug, Clone, Copy)]
pub enum ObjectPropType<'a> {
    DEVICE(PodRef<'a>),
    DEVICE_NAME(PodRef<'a>),
    DEVICE_FD(PodRef<'a>),
    CARD(PodRef<'a>),
    CARD_NAME(PodRef<'a>),
    MIN_LATENCY(PodRef<'a>),
    MAX_LATENCY(PodRef<'a>),
    PERIODS(PodRef<'a>),
    PERIOD_SIZE(PodRef<'a>),
    PERIOD_EVENT(PodRef<'a>),
    LIVE(PodRef<'a>),
    RATE(PodRef<'a>),
    QUALITY(PodRef<'a>),
    BLUETOOTH_AUDIO_CODEC(PodRef<'a>),
    WAVE_TYPE(PodRef<'a>),
    FREQUENCY(PodRef<'a>),
    VOLUME(PodRef<'a>),
    MUTE(PodRef<'a>),
    PATTERN_TYPE(PodRef<'a>),
    DITHER_TYPE(PodRef<'a>),
    TRUNCATE(PodRef<'a>),
    CHANNEL_VOLUMES(PodRef<'a>),
    VOLUME_BASE(PodRef<'a>),
    VOLUME_STEP(PodRef<'a>),
    CHANNEL_MAP(PodRef<'a>),
    MONITOR_MUTE(PodRef<'a>),
    MONITOR_VOLUMES(PodRef<'a>),
    LATENCY_OFFSET_NSEC(PodRef<'a>),
    SOFT_MUTE(PodRef<'a>),
    SOFT_VOLUMES(PodRef<'a>),
    IEC958_CODECS(PodRef<'a>),
    BRIGHTNESS(PodRef<'a>),
    CONTRAST(PodRef<'a>),
    SATURATION(PodRef<'a>),
    HUE(PodRef<'a>),
    GAMMA(PodRef<'a>),
    EXPOSURE(PodRef<'a>),
    GAIN(PodRef<'a>),
    SHARPNESS(PodRef<'a>),
    PARAMS(PodRef<'a>),
}

impl<'a> PodPropKeyType<'a> for ObjectPropType<'a> {
    open spec fn spec_key_type(key: u32) -> Option<u32> {
        if key == Prop::DEVICE {
            Some(Type::STRING)
        } else if key == Prop::DEVICE_NAME {
            Some(Type::STRING)
        } else if key == Prop::DEVICE_FD {
            Some(Type::FD)
        } else if key == Prop::CARD {
            Some(Type::STRING)
        } else if key == Prop::CARD_NAME {
            Some(Type::STRING)
        } else if key == Prop::MIN_LATENCY {
            Some(Type::INT)
        } else if key == Prop::MAX_LATENCY {
            Some(Type::INT)
        } else if key == Prop::PERIODS {
            Some(Type::INT)
        } else if key == Prop::PERIOD_SIZE {
            Some(Type::INT)
        } else if key == Prop::PERIOD_EVENT {
            Some(Type::BOOL)
        } else if key == Prop::LIVE {
            Some(Type::BOOL)
        } else if key == Prop::RATE {
            Some(Type::DOUBLE)
        } else if key == Prop::QUALITY {
            Some(Type::INT)
        } else if key == Prop::BLUETOOTH_AUDIO_CODEC {
            Some(Type::ID)
        } else if key == Prop::WAVE_TYPE {
            Some(Type::ID)
        } else if key == Prop::FREQUENCY {
            Some(Type::INT)
        } else if key == Prop::VOLUME {
            Some(Type::FLOAT)
        } else if key == Prop::MUTE {
            Some(Type::BOOL)
        } else if key == Prop::PATTERN_TYPE {
            Some(Type::ID)
        } else if key == Prop::DITHER_TYPE {
            Some(Type::ID)
        } else if key == Prop::TRUNCATE {
            Some(Type::BOOL)
        } else if key == Prop::CHANNEL_VOLUMES {
            Some(Type::ARRAY)
        } else if key == Prop::VOLUME_BASE {
            Some(Type::FLOAT)
        } else if key == Prop::VOLUME_STEP {
            Some(Type::FLOAT)
        } else if key == Prop::CHANNEL_MAP {
            Some(Type::ARRAY)
        } else if key == Prop::MONITOR_MUTE {
            Some(Type::BOOL)
        } else if key == Prop::MONITOR_VOLUMES {
            Some(Type::ARRAY)
        } else if key == Prop::LATENCY_OFFSET_NSEC {
            Some(Type::LONG)
        } else if key == Prop::SOFT_MUTE {
            Some(Type::BOOL)
        } else if key == Prop::SOFT_VOLUMES {
            Some(Type::ARRAY)
        } else if key == Prop::IEC958_CODECS {
            Some(Type::ARRAY)
        } else if key == Prop::BRIGHTNESS {
            Some(Type::INT)
        } else if key == Prop::CONTRAST {
            Some(Type::INT)
        } else if key == Prop::SATURATION {
            Some(Type::INT)
        } else if key == Prop::HUE {
            Some(Type::INT)
        } else if key == Prop::GAMMA {
            Some(Type::INT)
        } else if key == Prop::EXPOSURE {
            Some(Type::INT)
        } else if key == Prop::GAIN {
            Some(Type::INT)
        } else if key == Prop::SHARPNESS {
            Some(Type::INT)
        } else if key == Prop::PARAMS {
            Some(Type::STRUCT)
        } else {
            None
        }
    }

    open spec fn spec_key(&self) -> u32 {
        match *self {
            ObjectPropType::DEVICE(_) => Prop::DEVICE,
            ObjectPropType::DEVICE_NAME(_) => Prop::DEVICE_NAME,
            ObjectPropType::DEVICE_FD(_) => Prop::DEVICE_FD,
            ObjectPropType::CARD(_) => Prop::CARD,
            ObjectPropType::CARD_NAME(_) => Prop::CARD_NAME,
            ObjectPropType::MIN_LATENCY(_) => Prop::MIN_LATENCY,
            ObjectPropType::MAX_LATENCY(_) => Prop::MAX_LATENCY,
            ObjectPropType::PERIODS(_) => Prop::PERIODS,
            ObjectPropType::PERIOD_SIZE(_) => Prop::PERIOD_SIZE,
            ObjectPropType::PERIOD_EVENT(_) => Prop::PERIOD_EVENT,
            ObjectPropType::LIVE(_) => Prop::LIVE,
            ObjectPropType::RATE(_) => Prop::RATE,
            ObjectPropType::QUALITY(_) => Prop::QUALITY,
            ObjectPropType::BLUETOOTH_AUDIO_CODEC(_) => Prop::BLUETOOTH_AUDIO_CODEC,
            ObjectPropType::WAVE_TYPE(_) => Prop::WAVE_TYPE,
            ObjectPropType::FREQUENCY(_) => Prop::FREQUENCY,
            ObjectPropType::VOLUME(_) => Prop::VOLUME,
            ObjectPropType::MUTE(_) => Prop::MUTE,
            ObjectPropType::PATTERN_TYPE(_) => Prop::PATTERN_TYPE,
            ObjectPropType::DITHER_TYPE(_) => Prop::DITHER_TYPE,
            ObjectPropType::TRUNCATE(_) => Prop::TRUNCATE,
            ObjectPropType::CHANNEL_VOLUMES(_) => Prop::CHANNEL_VOLUMES,
            ObjectPropType::VOLUME_BASE(_) => Prop::VOLUME_BASE,
            ObjectPropType::VOLUME_STEP(_) => Prop::VOLUME_STEP,
            ObjectPropType::CHANNEL_MAP(_) => Prop::CHANNEL_MAP,
            ObjectPropType::MONITOR_MUTE(_) => Prop::MONITOR_MUTE,
            ObjectPropType::MONITOR_VOLUMES(_) => Prop::MONITOR_VOLUMES,
            ObjectPropType::LATENCY_OFFSET_NSEC(_) => Prop::LATENCY_OFFSET_NSEC,
            ObjectPropType::SOFT_MUTE(_) => Prop::SOFT_MUTE,
            ObjectPropType::SOFT_VOLUMES(_) => Prop::SOFT_VOLUMES,
            ObjectPropType::IEC958_CODECS(_) => Prop::IEC958_CODECS,
            ObjectPropType::BRIGHTNESS(_) => Prop::BRIGHTNESS,
            ObjectPropType::CONTRAST(_) => Prop::CONTRAST,
            ObjectPropType::SATURATION(_) => Prop::SATURATION,
            ObjectPropType::HUE(_) => Prop::HUE,
            ObjectPropType::GAMMA(_) => Prop::GAMMA,
            ObjectPropType::EXPOSURE(_) => Prop::EXPOSURE,
            ObjectPropType::GAIN(_) => Prop::GAIN,
            ObjectPropType::SHARPNESS(_) => Prop::SHARPNESS,
            ObjectPropType::PARAMS(_) => Prop::PARAMS,
        }
    }

    open spec fn spec_pod(&self) -> PodRef<'a> {
        match *self {
            ObjectPropType::DEVICE(pod) => pod,
            ObjectPropType::DEVICE_NAME(pod) => pod,
            ObjectPropType::DEVICE_FD(pod) => pod,
            ObjectPropType::CARD(pod) => pod,
            ObjectPropType::CARD_NAME(pod) => pod,
            ObjectPropType::MIN_LATENCY(pod) => pod,
            ObjectPropType::MAX_LATENCY(pod) => pod,
            ObjectPropType::PERIODS(pod) => pod,
            ObjectPropType::PERIOD_SIZE(pod) => pod,
            ObjectPropType::PERIOD_EVENT(pod) => pod,
            ObjectPropType::LIVE(pod) => pod,
            ObjectPropType::RATE(pod) => pod,
            ObjectPropType::QUALITY(pod) => pod,
            ObjectPropType::BLUETOOTH_AUDIO_CODEC(pod) => pod,
            ObjectPropType::WAVE_TYPE(pod) => pod,
            ObjectPropType::FREQUENCY(pod) => pod,
            ObjectPropType::VOLUME(pod) => pod,
            ObjectPropType::MUTE(pod) => pod,
            ObjectPropType::PATTERN_TYPE(pod) => pod,
            ObjectPropType::DITHER_TYPE(pod) => pod,
            ObjectPropType::TRUNCATE(pod) => pod,
            ObjectPropType::CHANNEL_VOLUMES(pod) => pod,
            ObjectPropType::VOLUME_BASE(pod) => pod,
            ObjectPropType::VOLUME_STEP(pod) => pod,
            ObjectPropType::CHANNEL_MAP(pod) => pod,
            ObjectPropType::MONITOR_MUTE(pod) => pod,
            ObjectPropType::MONITOR_VOLUMES(pod) => pod,
            ObjectPropType::LATENCY_OFFSET_NSEC(pod) => pod,
            ObjectPropType::SOFT_MUTE(pod) => pod,
            ObjectPropType::SOFT_VOLUMES(pod) => pod,
            ObjectPropType::IEC958_CODECS(pod) => pod,
            ObjectPropType::BRIGHTNESS(pod) => pod,
            ObjectPropType::CONTRAST(pod) => pod,
            ObjectPropType::SATURATION(pod) => pod,
            ObjectPropType::HUE(pod) => pod,
            ObjectPropType::GAMMA(pod) => pod,
            ObjectPropType::EXPOSURE(pod) => pod,
            ObjectPropType::GAIN(pod) => pod,
            ObjectPropType::SHARPNESS(pod) => pod,
            ObjectPropType::PARAMS(pod) => pod,
        }
    }

    proof fn lemma_key_known(&self) {
    }

    fn key_type(key: u32) -> Option<u32> {
        if key == Prop::DEVICE {
            Some(Type::STRING)
        } else if key == Prop::DEVICE_NAME {
            Some(Type::STRING)
        } else if key == Prop::DEVICE_FD {
            Some(Type::FD)
        } else if key == Prop::CARD {
            Some(Type::STRING)
        } else if key == Prop::CARD_NAME {
            Some(Type::STRING)
        } else if key == Prop::MIN_LATENCY {
            Some(Type::INT)
        } else if key == Prop::MAX_LATENCY {
            Some(Type::INT)
        } else if key == Prop::PERIODS {
            Some(Type::INT)
        } else if key == Prop::PERIOD_SIZE {
            Some(Type::INT)
        } else if key == Prop::PERIOD_EVENT {
            Some(Type::BOOL)
        } else if key == Prop::LIVE {
            Some(Type::BOOL)
        } else if key == Prop::RATE {
            Some(Type::DOUBLE)
        } else if key == Prop::QUALITY {
            Some(Type::INT)
        } else if key == Prop::BLUETOOTH_AUDIO_CODEC {
            Some(Type::ID)
        } else if key == Prop::WAVE_TYPE {
            Some(Type::ID)
        } else if key == Prop::FREQUENCY {
            Some(Type::INT)
        } else if key == Prop::VOLUME {
            Some(Type::FLOAT)
        } else if key == Prop::MUTE {
            Some(Type::BOOL)
        } else if key == Prop::PATTERN_TYPE {
            Some(Type::ID)
        } else if key == Prop::DITHER_TYPE {
            Some(Type::ID)
        } else if key == Prop::TRUNCATE {
            Some(Type::BOOL)
        } else if key == Prop::CHANNEL_VOLUMES {
            Some(Type::ARRAY)
        } else if key == Prop::VOLUME_BASE {
            Some(Type::FLOAT)
        } else if key == Prop::VOLUME_STEP {
            Some(Type::FLOAT)
        } else if key == Prop::CHANNEL_MAP {
            Some(Type::ARRAY)
        } else if key == Prop::MONITOR_MUTE {
            Some(Type::BOOL)
        } else if key == Prop::MONITOR_VOLUMES {
            Some(Type::ARRAY)
        } else if key == Prop::LATENCY_OFFSET_NSEC {
            Some(Type::LONG)
        } else if key == Prop::SOFT_MUTE {
            Some(Type::BOOL)
        } else if key == Prop::SOFT_VOLUMES {
            Some(Type::ARRAY)
        } else if key == Prop::IEC958_CODECS {
            Some(Type::ARRAY)
        } else if key == Prop::BRIGHTNESS {
            Some(Type::INT)
        } else if key == Prop::CONTRAST {
            Some(Type::INT)
        } else if key == Prop::SATURATION {
            Some(Type::INT)
        } else if key == Prop::HUE {
            Some(Type::INT)
        } else if key == Prop::GAMMA {
            Some(Type::INT)
        } else if key == Prop::EXPOSURE {
            Some(Type::INT)
        } else if key == Prop::GAIN {
            Some(Type::INT)
        } else if key == Prop::SHARPNESS {
            Some(Type::INT)
        } else if key == Prop::PARAMS {
            Some(Type::STRUCT)
        } else {
            None
        }
    }

    fn from_key_and_pod(key: u32, pod: PodRef<'a>) -> Self {
        if key == Prop::DEVICE {
            ObjectPropType::DEVICE(pod)
        } else if key == Prop::DEVICE_NAME {
            ObjectPropType::DEVICE_NAME(pod)
        } else if key == Prop::DEVICE_FD {
            ObjectPropType::DEVICE_FD(pod)
        } else if key == Prop::CARD {
            ObjectPropType::CARD(pod)
        } else if key == Prop::CARD_NAME {
            ObjectPropType::CARD_NAME(pod)
        } else if key == Prop::MIN_LATENCY {
            ObjectPropType::MIN_LATENCY(pod)
        } else if key == Prop::MAX_LATENCY {
            ObjectPropType::MAX_LATENCY(pod)
        } else if key == Prop::PERIODS {
            ObjectPropType::PERIODS(pod)
        } else if key == Prop::PERIOD_SIZE {
            ObjectPropType::PERIOD_SIZE(pod)
        } else if key == Prop::PERIOD_EVENT {
            ObjectPropType::PERIOD_EVENT(pod)
        } else if key == Prop::LIVE {
            ObjectPropType::LIVE(pod)
        } else if key == Prop::RATE {
            ObjectPropType::RATE(pod)
        } else if key == Prop::QUALITY {
            ObjectPropType::QUALITY(pod)
        } else if key == Prop::BLUETOOTH_AUDIO_CODEC {
            ObjectPropType::BLUETOOTH_AUDIO_CODEC(pod)
        } else if key == Prop::WAVE_TYPE {
            ObjectPropType::WAVE_TYPE(pod)
        } else if key == Prop::FREQUENCY {
            ObjectPropType::FREQUENCY(pod)
        } else if key == Prop::VOLUME {
            ObjectPropType::VOLUME(pod)
        } else if key == Prop::MUTE {
            ObjectPropType::MUTE(pod)
        } else if key == Prop::PATTERN_TYPE {
            ObjectPropType::PATTERN_TYPE(pod)
        } else if key == Prop::DITHER_TYPE {
            ObjectPropType::DITHER_TYPE(pod)
        } else if key == Prop::TRUNCATE {
            ObjectPropType::TRUNCATE(pod)
        } else if key == Prop::CHANNEL_VOLUMES {
            ObjectPropType::CHANNEL_VOLUMES(pod)
        } else if key == Prop::VOLUME_BASE {
            ObjectPropType::VOLUME_BASE(pod)
        } else if key == Prop::VOLUME_STEP {
            ObjectPropType::VOLUME_STEP(pod)
        } else if key == Prop::CHANNEL_MAP {
            ObjectPropType::CHANNEL_MAP(pod)
        } else if key == Prop::MONITOR_MUTE {
            ObjectPropType::MONITOR_MUTE(pod)
        } else if key == Prop::MONITOR_VOLUMES {
            ObjectPropType::MONITOR_VOLUMES(pod)
        } else if key == Prop::LATENCY_OFFSET_NSEC {
            ObjectPropType::LATENCY_OFFSET_NSEC(pod)
        } else if key == Prop::SOFT_MUTE {
            ObjectPropType::SOFT_MUTE(pod)
        } else if key == Prop::SOFT_VOLUMES {
            ObjectPropType::SOFT_VOLUMES(pod)
        } else if key == Prop::IEC958_CODECS {
            ObjectPropType::IEC958_CODECS(pod)
        } else if key == Prop::BRIGHTNESS {
            ObjectPropType::BRIGHTNESS(pod)
        } else if key == Prop::CONTRAST {
            ObjectPropType::CONTRAST(pod)
        } else if key == Prop::SATURATION {
            ObjectPropType::SATURATION(pod)
        } else if key == Prop::HUE {
            ObjectPropType::HUE(pod)
        } else if key == Prop::GAMMA {
            ObjectPropType::GAMMA(pod)
        } else if key == Prop::EXPOSURE {
            ObjectPropType::EXPOSURE(pod)
        } else if key == Prop::GAIN {
            ObjectPropType::GAIN(pod)
        } else if key == Prop::SHARPNESS {
            ObjectPropType::SHARPNESS(pod)
        } else if key == Prop::PARAMS {
            ObjectPropType::PARAMS(pod)
        } else {
            vstd::pervasive::unreached()
        }
    }

    fn key(&self) -> u32 {
        match self {
            ObjectPropType::DEVICE(_) => Prop::DEVICE,
            ObjectPropType::DEVICE_NAME(_) => Prop::DEVICE_NAME,
            ObjectPropType::DEVICE_FD(_) => Prop::DEVICE_FD,
            ObjectPropType::CARD(_) => Prop::CARD,
            ObjectPropType::CARD_NAME(_) => Prop::CARD_NAME,
            ObjectPropType::MIN_LATENCY(_) => Prop::MIN_LATENCY,
            ObjectPropType::MAX_LATENCY(_) => Prop::MAX_LATENCY,
            ObjectPropType::PERIODS(_) => Prop::PERIODS,
            ObjectPropType::PERIOD_SIZE(_) => Prop::PERIOD_SIZE,
            ObjectPropType::PERIOD_EVENT(_) => Prop::PERIOD_EVENT,
            ObjectPropType::LIVE(_) => Prop::LIVE,
            ObjectPropType::RATE(_) => Prop::RATE,
            ObjectPropType::QUALITY(_) => Prop::QUALITY,
            ObjectPropType::BLUETOOTH_AUDIO_CODEC(_) => Prop::BLUETOOTH_AUDIO_CODEC,
            ObjectPropType::WAVE_TYPE(_) => Prop::WAVE_TYPE,
            ObjectPropType::FREQUENCY(_) => Prop::FREQUENCY,
            ObjectPropType::VOLUME(_) => Prop::VOLUME,
            ObjectPropType::MUTE(_) => Prop::MUTE,
            ObjectPropType::PATTERN_TYPE(_) => Prop::PATTERN_TYPE,
            ObjectPropType::DITHER_TYPE(_) => Prop::DITHER_TYPE,
            ObjectPropType::TRUNCATE(_) => Prop::TRUNCATE,
            ObjectPropType::CHANNEL_VOLUMES(_) => Prop::CHANNEL_VOLUMES,
            ObjectPropType::VOLUME_BASE(_) => Prop::VOLUME_BASE,
            ObjectPropType::VOLUME_STEP(_) => Prop::VOLUME_STEP,
            ObjectPropType::CHANNEL_MAP(_) => Prop::CHANNEL_MAP,
            ObjectPropType::MONITOR_MUTE(_) => Prop::MONITOR_MUTE,
            ObjectPropType::MONITOR_VOLUMES(_) => Prop::MONITOR_VOLUMES,
            ObjectPropType::LATENCY_OFFSET_NSEC(_) => Prop::LATENCY_OFFSET_NSEC,
            ObjectPropType::SOFT_MUTE(_) => Prop::SOFT_MUTE,
            ObjectPropType::SOFT_VOLUMES(_) => Prop::SOFT_VOLUMES,
            ObjectPropType::IEC958_CODECS(_) => Prop::IEC958_CODECS,
            ObjectPropType::BRIGHTNESS(_) => Prop::BRIGHTNESS,
            ObjectPropType::CONTRAST(_) => Prop::CONTRAST,
            ObjectPropType::SATURATION(_) => Prop::SATURATION,
            ObjectPropType::HUE(_) => Prop::HUE,
            ObjectPropType::GAMMA(_) => Prop::GAMMA,
            ObjectPropType::EXPOSURE(_) => Prop::EXPOSURE,
            ObjectPropType::GAIN(_) => Prop::GAIN,
            ObjectPropType::SHARPNESS(_) => Prop::SHARPNESS,
            ObjectPropType::PARAMS(_) => Prop::PARAMS,
        }
    }

    fn pod(&self) -> PodRef<'a> {
        match self {
            ObjectPropType::DEVICE(pod) => *pod,
            ObjectPropType::DEVICE_NAME(pod) => *pod,
            ObjectPropType::DEVICE_FD(pod) => *pod,
            ObjectPropType::CARD(pod) => *pod,
            ObjectPropType::CARD_NAME(pod) => *pod,
            ObjectPropType::MIN_LATENCY(pod) => *pod,
            ObjectPropType::MAX_LATENCY(pod) => *pod,
            ObjectPropType::PERIODS(pod) => *pod,
            ObjectPropType::PERIOD_SIZE(pod) => *pod,
            ObjectPropType::PERIOD_EVENT(pod) => *pod,
            ObjectPropType::LIVE(pod) => *pod,
            ObjectPropType::RATE(pod) => *pod,
            ObjectPropType::QUALITY(pod) => *pod,
            ObjectPropType::BLUETOOTH_AUDIO_CODEC(pod) => *pod,
            ObjectPropType::WAVE_TYPE(pod) => *pod,
            ObjectPropType::FREQUENCY(pod) => *pod,
            ObjectPropType::VOLUME(pod) => *pod,
            ObjectPropType::MUTE(pod) => *pod,
            ObjectPropType::PATTERN_TYPE(pod) => *pod,
            ObjectPropType::DITHER_TYPE(pod) => *pod,
            ObjectPropType::TRUNCATE(pod) => *pod,
            ObjectPropType::CHANNEL_VOLUMES(pod) => *pod,
            ObjectPropType::VOLUME_BASE(pod) => *pod,
            ObjectPropType::VOLUME_STEP(pod) => *pod,
            ObjectPropType::CHANNEL_MAP(pod) => *pod,
            ObjectPropType::MONITOR_MUTE(pod) => *pod,
            ObjectPropType::MONITOR_VOLUMES(pod) => *pod,
            ObjectPropType::LATENCY_OFFSET_NSEC(pod) => *pod,
            ObjectPropType::SOFT_MUTE(pod) => *pod,
            ObjectPropType::SOFT_VOLUMES(pod) => *pod,
            ObjectPropType::IEC958_CODECS(pod) => *pod,
            ObjectPropType::BRIGHTNESS(pod) => *pod,
            ObjectPropType::CONTRAST(pod) => *pod,
            ObjectPropType::SATURATION(pod) => *pod,
            ObjectPropType::HUE(pod) => *pod,
            ObjectPropType::GAMMA(pod) => *pod,
            ObjectPropType::EXPOSURE(pod) => *pod,
            ObjectPropType::GAIN(pod) => *pod,
            ObjectPropType::SHARPNESS(pod) => *pod,
            ObjectPropType::PARAMS(pod) => *pod,
        }
    }
}

/// Bluetooth audio codecs.
pub struct BluetoothAudioCodec;

impl BluetoothAudioCodec {
    pub const START: u32 = 0;
    pub const SBC: u32 = 1;
    pub const SBC_XQ: u32 = 2;
    pub const MPEG: u32 = 3;
    pub const AAC: u32 = 4;
    pub const APTX: u32 = 5;
    pub const APTX_HD: u32 = 6;
    pub const LDAC: u32 = 7;
    pub const APTX_LL: u32 = 8;
    pub const APTX_LL_DUPLEX: u32 = 9;
    pub const FASTSTREAM: u32 = 10;
    pub const FASTSTREAM_DUPLEX: u32 = 11;
    pub const CVSD: u32 = 0x100;
    pub const MSBC: u32 = 0x101;
}

/// Audio channel positions.
pub struct AudioChannel;

impl AudioChannel {
    pub const UNKNOWN: u32 = 0;
    pub const NA: u32 = 1;
    pub const MONO: u32 = 2;
    pub const FL: u32 = 3;
    pub const FR: u32 = 4;
    pub const FC: u32 = 5;
    pub const LFE: u32 = 6;
    pub const SL: u32 = 7;
    pub const SR: u32 = 8;
    pub const FLC: u32 = 9;
    pub const FRC: u32 = 10;
    pub const RC: u32 = 11;
    pub const RL: u32 = 12;
    pub const RR: u32 = 13;
    pub const TC: u32 = 14;
    pub const TFL: u32 = 15;
    pub const TFC: u32 = 16;
    pub const TFR: u32 = 17;
    pub const TRL: u32 = 18;
    pub const TRC: u32 = 19;
    pub const TRR: u32 = 20;
    pub const RLC: u32 = 21;
    pub const RRC: u32 = 22;
    pub const FLW: u32 = 23;
    pub const FRW: u32 = 24;
    pub const LFE2: u32 = 25;
    pub const FLH: u32 = 26;
    pub const FCH: u32 = 27;
    pub const FRH: u32 = 28;
    pub const TFLC: u32 = 29;
    pub const TFRC: u32 = 30;
    pub const TSL: u32 = 31;
    pub const TSR: u32 = 32;
    pub const LLFE: u32 = 33;
    pub const RLFE: u32 = 34;
    pub const BC: u32 = 35;
    pub const BLC: u32 = 36;
    pub const BRC: u32 = 37;
    pub const START_AUX: u32 = 0x1000;
    pub const AUX0: u32 = 0x1000;
    pub const AUX1: u32 = 0x1001;
    pub const AUX2: u32 = 0x1002;
    pub const AUX3: u32 = 0x1003;
    pub const AUX4: u32 = 0x1004;
    pub const AUX5: u32 = 0x1005;
    pub const AUX6: u32 = 0x1006;
    pub const AUX7: u32 = 0x1007;
    pub const AUX8: u32 = 0x1008;
    pub const AUX9: u32 = 0x1009;
    pub const AUX10: u32 = 0x100a;
    pub const AUX11: u32 = 0x100b;
    pub const AUX12: u32 = 0x100c;
    pub const AUX13: u32 = 0x100d;
    pub const AUX14: u32 = 0x100e;
    pub const AUX15: u32 = 0x100f;
    pub const AUX16: u32 = 0x1010;
    pub const AUX17: u32 = 0x1011;
    pub const AUX18: u32 = 0x1012;
    pub const AUX19: u32 = 0x1013;
    pub const AUX20: u32 = 0x1014;
    pub const AUX21: u32 = 0x1015;
    pub const AUX22: u32 = 0x1016;
    pub const AUX23: u32 = 0x1017;
    pub const AUX24: u32 = 0x1018;
    pub const AUX25: u32 = 0x1019;
    pub const AUX26: u32 = 0x101a;
    pub const AUX27: u32 = 0x101b;
    pub const AUX28: u32 = 0x101c;
    pub const AUX29: u32 = 0x101d;
    pub const AUX30: u32 = 0x101e;
    pub const AUX31: u32 = 0x101f;
    pub const AUX32: u32 = 0x1020;
    pub const AUX33: u32 = 0x1021;
    pub const AUX34: u32 = 0x1022;
    pub const AUX35: u32 = 0x1023;
    pub const AUX36: u32 = 0x1024;
    pub const AUX37: u32 = 0x1025;
    pub const AUX38: u32 = 0x1026;
    pub const AUX39: u32 = 0x1027;
    pub const AUX40: u32 = 0x1028;
    pub const AUX41: u32 = 0x1029;
    pub const AUX42: u32 = 0x102a;
    pub const AUX43: u32 = 0x102b;
    pub const AUX44: u32 = 0x102c;
    pub const AUX45: u32 = 0x102d;
    pub const AUX46: u32 = 0x102e;
    pub const AUX47: u32 = 0x102f;
    pub const AUX48: u32 = 0x1030;
    pub const AUX49: u32 = 0x1031;
    pub const AUX50: u32 = 0x1032;
    pub const AUX51: u32 = 0x1033;
    pub const AUX52: u32 = 0x1034;
    pub const AUX53: u32 = 0x1035;
    pub const AUX54: u32 = 0x1036;
    pub const AUX55: u32 = 0x1037;
    pub const AUX56: u32 = 0x1038;
    pub const AUX57: u32 = 0x1039;
    pub const AUX58: u32 = 0x103a;
    pub const AUX59: u32 = 0x103b;
    pub const AUX60: u32 = 0x103c;
    pub const AUX61: u32 = 0x103d;
    pub const AUX62: u32 = 0x103e;
    pub const AUX63: u32 = 0x103f;
    pub const LAST_AUX: u32 = 0x1fff;
    pub const START_CUSTOM: u32 = 0x10000;
}

/// IEC958 codecs.
pub struct AudioIec958Codec;

impl AudioIec958Codec {
    pub const UNKNOWN: u32 = 0;
    pub const PCM: u32 = 1;
    pub const DTS: u32 = 2;
    pub const AC3: u32 = 3;
    pub const MPEG: u32 = 4;
    pub const MPEG2_AAC: u32 = 5;
    pub const EAC3: u32 = 6;
    pub const TRUEHD: u32 = 7;
    pub const DTSHD: u32 = 8;
}

} // verus!

verus! {

/// The pod type that each key of a [ObjectPropType] prop is read as, fixed by SPA, with every
/// other key unknown; and the key that each variant is written with. A prop whose pod has
/// its key's type reads back as the variant of that key.
pub proof fn lemma_key_table<'a>(key: u32, value: ObjectPropType<'a>)
    ensures
        ObjectPropType::spec_key_type(Prop::DEVICE) == Some(Type::STRING),
        ObjectPropType::spec_key_type(Prop::DEVICE_NAME) == Some(Type::STRING),
        ObjectPropType::spec_key_type(Prop::DEVICE_FD) == Some(Type::FD),
        ObjectPropType::spec_key_type(Prop::CARD) == Some(Type::STRING),
        ObjectPropType::spec_key_type(Prop::CARD_NAME) == Some(Type::STRING),
        ObjectPropType::spec_key_type(Prop::MIN_LATENCY) == Some(Type::INT),
        ObjectPropType::spec_key_type(Prop::MAX_LATENCY) == Some(Type::INT),
        ObjectPropType::spec_key_type(Prop::PERIODS) == Some(Type::INT),
        ObjectPropType::spec_key_type(Prop::PERIOD_SIZE) == Some(Type::INT),
        ObjectPropType::spec_key_type(Prop::PERIOD_EVENT) == Some(Type::BOOL),
        ObjectPropType::spec_key_type(Prop::LIVE) == Some(Type::BOOL),
        ObjectPropType::spec_key_type(Prop::RATE) == Some(Type::DOUBLE),
        ObjectPropType::spec_key_type(Prop::QUALITY) == Some(Type::INT),
        ObjectPropType::spec_key_type(Prop::BLUETOOTH_AUDIO_CODEC) == Some(Type::ID),
        ObjectPropType::spec_key_type(Prop::WAVE_TYPE) == Some(Type::ID),
        ObjectPropType::spec_key_type(Prop::FREQUENCY) == Some(Type::INT),
        ObjectPropType::spec_key_type(Prop::VOLUME) == Some(Type::FLOAT),
        ObjectPropType::spec_key_type(Prop::MUTE) == Some(Type::BOOL),
        ObjectPropType::spec_key_type(Prop::PATTERN_TYPE) == Some(Type::ID),
        ObjectPropType::spec_key_type(Prop::DITHER_TYPE) == Some(Type::ID),
        ObjectPropType::spec_key_type(Prop::TRUNCATE) == Some(Type::BOOL),
        ObjectPropType::spec_key_type(Prop::CHANNEL_VOLUMES) == Some(Type::ARRAY),
        ObjectPropType::spec_key_type(Prop::VOLUME_BASE) == Some(Type::FLOAT),
        ObjectPropType::spec_key_type(Prop::VOLUME_STEP) == Some(Type::FLOAT),
        ObjectPropType::spec_key_type(Prop::CHANNEL_MAP) == Some(Type::ARRAY),
        ObjectPropType::spec_key_type(Prop::MONITOR_MUTE) == Some(Type::BOOL),
        ObjectPropType::spec_key_type(Prop::MONITOR_VOLUMES) == Some(Type::ARRAY),
        ObjectPropType::spec_key_type(Prop::LATENCY_OFFSET_NSEC) == Some(Type::LONG),
        ObjectPropType::spec_key_type(Prop::SOFT_MUTE) == Some(Type::BOOL),
        ObjectPropType::spec_key_type(Prop::SOFT_VOLUMES) == Some(Type::ARRAY),
        ObjectPropType::spec_key_type(Prop::IEC958_CODECS) == Some(Type::ARRAY),
        ObjectPropType::spec_key_type(Prop::BRIGHTNESS) == Some(Type::INT),
        ObjectPropType::spec_key_type(Prop::CONTRAST) == Some(Type::INT),
        ObjectPropType::spec_key_type(Prop::SATURATION) == Some(Type::INT),
        ObjectPropType::spec_key_type(Prop::HUE) == Some(Type::INT),
        ObjectPropType::spec_key_type(Prop::GAMMA) == Some(Type::INT),
        ObjectPropType::spec_key_type(Prop::EXPOSURE) == Some(Type::INT),
        ObjectPropType::spec_key_type(Prop::GAIN) == Some(Type::INT),
        ObjectPropType::spec_key_type(Prop::SHARPNESS) == Some(Type::INT),
        ObjectPropType::spec_key_type(Prop::PARAMS) == Some(Type::STRUCT),
        (key != Prop::DEVICE && key != Prop::DEVICE_NAME && key != Prop::DEVICE_FD && key != Prop::CARD && key != Prop::CARD_NAME && key != Prop::MIN_LATENCY && key != Prop::MAX_LATENCY && key != Prop::PERIODS && key != Prop::PERIOD_SIZE && key != Prop::PERIOD_EVENT && key != Prop::LIVE && key != Prop::RATE && key != Prop::QUALITY && key != Prop::BLUETOOTH_AUDIO_CODEC && key != Prop::WAVE_TYPE && key != Prop::FREQUENCY && key != Prop::VOLUME && key != Prop::MUTE && key != Prop::PATTERN_TYPE && key != Prop::DITHER_TYPE && key != Prop::TRUNCATE && key != Prop::CHANNEL_VOLUMES && key != Prop::VOLUME_BASE && key != Prop::VOLUME_STEP && key != Prop::CHANNEL_MAP && key != Prop::MONITOR_MUTE && key != Prop::MONITOR_VOLUMES && key != Prop::LATENCY_OFFSET_NSEC && key != Prop::SOFT_MUTE && key != Prop::SOFT_VOLUMES && key != Prop::IEC958_CODECS && key != Prop::BRIGHTNESS && key != Prop::CONTRAST && key != Prop::SATURATION && key != Prop::HUE && key != Prop::GAMMA && key != Prop::EXPOSURE && key != Prop::GAIN && key != Prop::SHARPNESS && key != Prop::PARAMS) ==> ObjectPropType::spec_key_type(key) is None,
        value is DEVICE ==> value.spec_key() == Prop::DEVICE,
        value is DEVICE_NAME ==> value.spec_key() == Prop::DEVICE_NAME,
        value is DEVICE_FD ==> value.spec_key() == Prop::DEVICE_FD,
        value is CARD ==> value.spec_key() == Prop::CARD,
        value is CARD_NAME ==> value.spec_key() == Prop::CARD_NAME,
        value is MIN_LATENCY ==> value.spec_key() == Prop::MIN_LATENCY,
        value is MAX_LATENCY ==> value.spec_key() == Prop::MAX_LATENCY,
        value is PERIODS ==> value.spec_key() == Prop::PERIODS,
        value is PERIOD_SIZE ==> value.spec_key() == Prop::PERIOD_SIZE,
        value is PERIOD_EVENT ==> value.spec_key() == Prop::PERIOD_EVENT,
        value is LIVE ==> value.spec_key() == Prop::LIVE,
        value is RATE ==> value.spec_key() == Prop::RATE,
        value is QUALITY ==> value.spec_key() == Prop::QUALITY,
        value is BLUETOOTH_AUDIO_CODEC ==> value.spec_key() == Prop::BLUETOOTH_AUDIO_CODEC,
        value is WAVE_TYPE ==> value.spec_key() == Prop::WAVE_TYPE,
        value is FREQUENCY ==> value.spec_key() == Prop::FREQUENCY,
        value is VOLUME ==> value.spec_key() == Prop::VOLUME,
        value is MUTE ==> value.spec_key() == Prop::MUTE,
        value is PATTERN_TYPE ==> value.spec_key() == Prop::PATTERN_TYPE,
        value is DITHER_TYPE ==> value.spec_key() == Prop::DITHER_TYPE,
        value is TRUNCATE ==> value.spec_key() == Prop::TRUNCATE,
        value is CHANNEL_VOLUMES ==> value.spec_key() == Prop::CHANNEL_VOLUMES,
        value is VOLUME_BASE ==> value.spec_key() == Prop::VOLUME_BASE,
        value is VOLUME_STEP ==> value.spec_key() == Prop::VOLUME_STEP,
        value is CHANNEL_MAP ==> value.spec_key() == Prop::CHANNEL_MAP,
        value is MONITOR_MUTE ==> value.spec_key() == Prop::MONITOR_MUTE,
        value is MONITOR_VOLUMES ==> value.spec_key() == Prop::MONITOR_VOLUMES,
        value is LATENCY_OFFSET_NSEC ==> value.spec_key() == Prop::LATENCY_OFFSET_NSEC,
        value is SOFT_MUTE ==> value.spec_key() == Prop::SOFT_MUTE,
        value is SOFT_VOLUMES ==> value.spec_key() == Prop::SOFT_VOLUMES,
        value is IEC958_CODECS ==> value.spec_key() == Prop::IEC958_CODECS,
        value is BRIGHTNESS ==> value.spec_key() == Prop::BRIGHTNESS,
        value is CONTRAST ==> value.spec_key() == Prop::CONTRAST,
        value is SATURATION ==> value.spec_key() == Prop::SATURATION,
        value is HUE ==> value.spec_key() == Prop::HUE,
        value is GAMMA ==> value.spec_key() == Prop::GAMMA,
        value is EXPOSURE ==> value.spec_key() == Prop::EXPOSURE,
        value is GAIN ==> value.spec_key() == Prop::GAIN,
        value is SHARPNESS ==> value.spec_key() == Prop::SHARPNESS,
        value is PARAMS ==> value.spec_key() == Prop::PARAMS,
{
}

} // verus!

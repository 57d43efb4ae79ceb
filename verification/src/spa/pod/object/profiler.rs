//! Props of the profiler objects.
use vstd::prelude::*;

use crate::spa::pod::object::prop_core::PodPropKeyType;
use crate::spa::pod::PodRef;
use crate::spa::type_::Type;

verus! {

/// Keys of the props of a profiler object.
pub struct Profiler;

impl Profiler {
    pub const START: u32 = 0;
    pub const START_DRIVER: u32 = 0x10000;
    pub const INFO: u32 = 0x10001;
    pub const CLOCK: u32 = 0x10002;
    pub const DRIVER_BLOCK: u32 = 0x10003;
    pub const START_FOLLOWER: u32 = 0x20000;
    pub const FOLLOWER_BLOCK: u32 = 0x20001;
    pub const START_CUSTOM: u32 = 0x1000000;
}

/// A prop of a profiler object.
/// Each variant holds the pod of the prop, which has the type that the key names.
#[allow(non_camel_case_types)]
#[derive(Debug, Clone, Copy)]
pub enum ProfilerType<'a> {
    INFO(PodRef<'a>),
    CLOCK(PodRef<'a>),
    DRIVER_BLOCK(PodRef<'a>),
    FOLLOWER_BLOCK(PodRef<'a>),
}

impl<'a> PodPropKeyType<'a> for ProfilerType<'a> {
    open spec fn spec_key_type(key: u32) -> Option<u32> {
        if key == Profiler::INFO {
            Some(Type::STRUCT)
        } else if key == Profiler::CLOCK {
            Some(Type::STRUCT)
        } else if key == Profiler::DRIVER_BLOCK {
            Some(Type::STRUCT)
        } else if key == Profiler::FOLLOWER_BLOCK {
            Some(Type::STRUCT)
        } else {
            None
        }
    }

    open spec fn spec_key(&self) -> u32 {
        match *self {
            ProfilerType::INFO(_) => Profiler::INFO,
            ProfilerType::CLOCK(_) => Profiler::CLOCK,
            ProfilerType::DRIVER_BLOCK(_) => Profiler::DRIVER_BLOCK,
            ProfilerType::FOLLOWER_BLOCK(_) => Profiler::FOLLOWER_BLOCK,
        }
    }

    open spec fn spec_pod(&self) -> PodRef<'a> {
        match *self {
            ProfilerType::INFO(pod) => pod,
            ProfilerType::CLOCK(pod) => pod,
            ProfilerType::DRIVER_BLOCK(pod) => pod,
            ProfilerType::FOLLOWER_BLOCK(pod) => pod,
        }
    }

    proof fn lemma_key_known(&self) {
    }

    fn key_type(key: u32) -> Option<u32> {
        if key == Profiler::INFO {
            Some(Type::STRUCT)
        } else if key == Profiler::CLOCK {
            Some(Type::STRUCT)
        } else if key == Profiler::DRIVER_BLOCK {
            Some(Type::STRUCT)
        } else if key == Profiler::FOLLOWER_BLOCK {
            Some(Type::STRUCT)
        } else {
            None
        }
    }

    fn from_key_and_pod(key: u32, pod: PodRef<'a>) -> Self {
        if key == Profiler::INFO {
            ProfilerType::INFO(pod)
        } else if key == Profiler::CLOCK {
            ProfilerType::CLOCK(pod)
        } else if key == Profiler::DRIVER_BLOCK {
            ProfilerType::DRIVER_BLOCK(pod)
        } else if key == Profiler::FOLLOWER_BLOCK {
            ProfilerType::FOLLOWER_BLOCK(pod)
        } else {
            vstd::pervasive::unreached()
        }
    }

    fn key(&self) -> u32 {
        match self {
            ProfilerType::INFO(_) => Profiler::INFO,
            ProfilerType::CLOCK(_) => Profiler::CLOCK,
            ProfilerType::DRIVER_BLOCK(_) => Profiler::DRIVER_BLOCK,
            ProfilerType::FOLLOWER_BLOCK(_) => Profiler::FOLLOWER_BLOCK,
        }
    }

    fn pod(&self) -> PodRef<'a> {
        match self {
            ProfilerType::INFO(pod) => *pod,
            ProfilerType::CLOCK(pod) => *pod,
            ProfilerType::DRIVER_BLOCK(pod) => *pod,
            ProfilerType::FOLLOWER_BLOCK(pod) => *pod,
        }
    }
}

} // verus!

verus! {

/// The pod type that each key of a [ProfilerType] prop is read as, fixed by SPA, with every
/// other key unknown; and the key that each variant is written with. A prop whose pod has
/// its key's type reads back as the variant of that key.
pub proof fn lemma_key_table<'a>(key: u32, value: ProfilerType<'a>)
    ensures
        ProfilerType::spec_key_type(Profiler::INFO) == Some(Type::STRUCT),
        ProfilerType::spec_key_type(Profiler::CLOCK) == Some(Type::STRUCT),
        ProfilerType::spec_key_type(Profiler::DRIVER_BLOCK) == Some(Type::STRUCT),
        ProfilerType::spec_key_type(Profiler::FOLLOWER_BLOCK) == Some(Type::STRUCT),
        (key != Profiler::INFO && key != Profiler::CLOCK && key != Profiler::DRIVER_BLOCK && key != Profiler::FOLLOWER_BLOCK) ==> ProfilerType::spec_key_type(key) is None,
        value is INFO ==> value.spec_key() == Profiler::INFO,
        value is CLOCK ==> value.spec_key() == Profiler::CLOCK,
        value is DRIVER_BLOCK ==> value.spec_key() == Profiler::DRIVER_BLOCK,
        value is FOLLOWER_BLOCK ==> value.spec_key() == Profiler::FOLLOWER_BLOCK,
{
}

} // verus!

//! Props of the latency parameter objects.
use vstd::prelude::*;

use crate::spa::pod::object::prop_core::PodPropKeyType;
use crate::spa::pod::PodRef;
use crate::spa::type_::Type;

verus! {

/// Keys of the props of a latency parameter object.
pub struct ParamLatency;

impl ParamLatency {
    pub const START: u32 = 0;
    pub const DIRECTION: u32 = 1;
    pub const MIN_QUANTUM: u32 = 2;
    pub const MAX_QUANTUM: u32 = 3;
    pub const MIN_RATE: u32 = 4;
    pub const MAX_RATE: u32 = 5;
    pub const MIN_NS: u32 = 6;
    pub const MAX_NS: u32 = 7;
}

/// A prop of a latency parameter object.
/// Each variant holds the pod of the prop, which has the type that the key names.
#[allow(non_camel_case_types)]
#[derive(Debug, Clone, Copy)]
pub enum ParamLatencyType<'a> {
    DIRECTION(PodRef<'a>),
    MIN_QUANTUM(PodRef<'a>),
    MAX_QUANTUM(PodRef<'a>),
    MIN_RATE(PodRef<'a>),
    MAX_RATE(PodRef<'a>),
    MIN_NS(PodRef<'a>),
    MAX_NS(PodRef<'a>),
}

impl<'a> PodPropKeyType<'a> for ParamLatencyType<'a> {
    open spec fn spec_key_type(key: u32) -> Option<u32> {
        if key == ParamLatency::DIRECTION {
            Some(Type::ID)
        } else if key == ParamLatency::MIN_QUANTUM {
            Some(Type::FLOAT)
        } else if key == ParamLatency::MAX_QUANTUM {
            Some(Type::FLOAT)
        } else if key == ParamLatency::MIN_RATE {
            Some(Type::INT)
        } else if key == ParamLatency::MAX_RATE {
            Some(Type::INT)
        } else if key == ParamLatency::MIN_NS {
            Some(Type::LONG)
        } else if key == ParamLatency::MAX_NS {
            Some(Type::LONG)
        } else {
            None
        }
    }

    open spec fn spec_key(&self) -> u32 {
        match *self {
            ParamLatencyType::DIRECTION(_) => ParamLatency::DIRECTION,
            ParamLatencyType::MIN_QUANTUM(_) => ParamLatency::MIN_QUANTUM,
            ParamLatencyType::MAX_QUANTUM(_) => ParamLatency::MAX_QUANTUM,
            ParamLatencyType::MIN_RATE(_) => ParamLatency::MIN_RATE,
            ParamLatencyType::MAX_RATE(_) => ParamLatency::MAX_RATE,
            ParamLatencyType::MIN_NS(_) => ParamLatency::MIN_NS,
            ParamLatencyType::MAX_NS(_) => ParamLatency::MAX_NS,
        }
    }

    open spec fn spec_pod(&self) -> PodRef<'a> {
        match *self {
            ParamLatencyType::DIRECTION(pod) => pod,
            ParamLatencyType::MIN_QUANTUM(pod) => pod,
            ParamLatencyType::MAX_QUANTUM(pod) => pod,
            ParamLatencyType::MIN_RATE(pod) => pod,
            ParamLatencyType::MAX_RATE(pod) => pod,
            ParamLatencyType::MIN_NS(pod) => pod,
            ParamLatencyType::MAX_NS(pod) => pod,
        }
    }

    proof fn lemma_key_known(&self) {
    }

    fn key_type(key: u32) -> Option<u32> {
        if key == ParamLatency::DIRECTION {
            Some(Type::ID)
        } else if key == ParamLatency::MIN_QUANTUM {
            Some(Type::FLOAT)
        } else if key == ParamLatency::MAX_QUANTUM {
            Some(Type::FLOAT)
        } else if key == ParamLatency::MIN_RATE {
            Some(Type::INT)
        } else if key == ParamLatency::MAX_RATE {
            Some(Type::INT)
        } else if key == ParamLatency::MIN_NS {
            Some(Type::LONG)
        } else if key == ParamLatency::MAX_NS {
            Some(Type::LONG)
        } else {
            None
        }
    }

    fn from_key_and_pod(key: u32, pod: PodRef<'a>) -> Self {
        if key == ParamLatency::DIRECTION {
            ParamLatencyType::DIRECTION(pod)
        } else if key == ParamLatency::MIN_QUANTUM {
            ParamLatencyType::MIN_QUANTUM(pod)
        } else if key == ParamLatency::MAX_QUANTUM {
            ParamLatencyType::MAX_QUANTUM(pod)
        } else if key == ParamLatency::MIN_RATE {
            ParamLatencyType::MIN_RATE(pod)
        } else if key == ParamLatency::MAX_RATE {
            ParamLatencyType::MAX_RATE(pod)
        } else if key == ParamLatency::MIN_NS {
            ParamLatencyType::MIN_NS(pod)
        } else if key == ParamLatency::MAX_NS {
            ParamLatencyType::MAX_NS(pod)
        } else {
            vstd::pervasive::unreached()
        }
    }

    fn key(&self) -> u32 {
        match self {
            ParamLatencyType::DIRECTION(_) => ParamLatency::DIRECTION,
            ParamLatencyType::MIN_QUANTUM(_) => ParamLatency::MIN_QUANTUM,
            ParamLatencyType::MAX_QUANTUM(_) => ParamLatency::MAX_QUANTUM,
            ParamLatencyType::MIN_RATE(_) => ParamLatency::MIN_RATE,
            ParamLatencyType::MAX_RATE(_) => ParamLatency::MAX_RATE,
            ParamLatencyType::MIN_NS(_) => ParamLatency::MIN_NS,
            ParamLatencyType::MAX_NS(_) => ParamLatency::MAX_NS,
        }
    }

    fn pod(&self) -> PodRef<'a> {
        match self {
            ParamLatencyType::DIRECTION(pod) => *pod,
            ParamLatencyType::MIN_QUANTUM(pod) => *pod,
            ParamLatencyType::MAX_QUANTUM(pod) => *pod,
            ParamLatencyType::MIN_RATE(pod) => *pod,
            ParamLatencyType::MAX_RATE(pod) => *pod,
            ParamLatencyType::MIN_NS(pod) => *pod,
            ParamLatencyType::MAX_NS(pod) => *pod,
        }
    }
}

} // verus!

verus! {

/// The pod type that each key of a [ParamLatencyType] prop is read as, fixed by SPA, with every
/// other key unknown; and the key that each variant is written with. A prop whose pod has
/// its key's type reads back as the variant of that key.
pub proof fn lemma_key_table<'a>(key: u32, value: ParamLatencyType<'a>)
    ensures
        ParamLatencyType::spec_key_type(ParamLatency::DIRECTION) == Some(Type::ID),
        ParamLatencyType::spec_key_type(ParamLatency::MIN_QUANTUM) == Some(Type::FLOAT),
        ParamLatencyType::spec_key_type(ParamLatency::MAX_QUANTUM) == Some(Type::FLOAT),
        ParamLatencyType::spec_key_type(ParamLatency::MIN_RATE) == Some(Type::INT),
        ParamLatencyType::spec_key_type(ParamLatency::MAX_RATE) == Some(Type::INT),
        ParamLatencyType::spec_key_type(ParamLatency::MIN_NS) == Some(Type::LONG),
        ParamLatencyType::spec_key_type(ParamLatency::MAX_NS) == Some(Type::LONG),
        (key != ParamLatency::DIRECTION && key != ParamLatency::MIN_QUANTUM && key != ParamLatency::MAX_QUANTUM && key != ParamLatency::MIN_RATE && key != ParamLatency::MAX_RATE && key != ParamLatency::MIN_NS && key != ParamLatency::MAX_NS) ==> ParamLatencyType::spec_key_type(key) is None,
        value is DIRECTION ==> value.spec_key() == ParamLatency::DIRECTION,
        value is MIN_QUANTUM ==> value.spec_key() == ParamLatency::MIN_QUANTUM,
        value is MAX_QUANTUM ==> value.spec_key() == ParamLatency::MAX_QUANTUM,
        value is MIN_RATE ==> value.spec_key() == ParamLatency::MIN_RATE,
        value is MAX_RATE ==> value.spec_key() == ParamLatency::MAX_RATE,
        value is MIN_NS ==> value.spec_key() == ParamLatency::MIN_NS,
        value is MAX_NS ==> value.spec_key() == ParamLatency::MAX_NS,
{
}

} // verus!

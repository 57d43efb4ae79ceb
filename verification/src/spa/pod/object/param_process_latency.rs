//! Props of the process latency parameter objects.
use vstd::prelude::*;

use crate::spa::pod::object::prop_core::PodPropKeyType;
use crate::spa::pod::PodRef;
use crate::spa::type_::Type;

verus! {

/// Keys of the props of a process latency parameter object.
pub struct ParamProcessLatency;

impl ParamProcessLatency {
    pub const START: u32 = 0;
    pub const QUANTUM: u32 = 1;
    pub const RATE: u32 = 2;
    pub const NS: u32 = 3;
}

/// A prop of a process latency parameter object.
/// Each variant holds the pod of the prop, which has the type that the key names.
#[allow(non_camel_case_types)]
#[derive(Debug, Clone, Copy)]
pub enum ParamProcessLatencyType<'a> {
    QUANTUM(PodRef<'a>),
    RATE(PodRef<'a>),
    NS(PodRef<'a>),
}

impl<'a> PodPropKeyType<'a> for ParamProcessLatencyType<'a> {
    open spec fn spec_key_type(key: u32) -> Option<u32> {
        if key == ParamProcessLatency::QUANTUM {
            Some(Type::FLOAT)
        } else if key == ParamProcessLatency::RATE {
            Some(Type::INT)
        } else if key == ParamProcessLatency::NS {
            Some(Type::LONG)
        } else {
            None
        }
    }

    open spec fn spec_key(&self) -> u32 {
        match *self {
            ParamProcessLatencyType::QUANTUM(_) => ParamProcessLatency::QUANTUM,
            ParamProcessLatencyType::RATE(_) => ParamProcessLatency::RATE,
            ParamProcessLatencyType::NS(_) => ParamProcessLatency::NS,
        }
    }

    open spec fn spec_pod(&self) -> PodRef<'a> {
        match *self {
            ParamProcessLatencyType::QUANTUM(pod) => pod,
            ParamProcessLatencyType::RATE(pod) => pod,
            ParamProcessLatencyType::NS(pod) => pod,
        }
    }

    proof fn lemma_key_known(&self) {
    }

    fn key_type(key: u32) -> Option<u32> {
        if key == ParamProcessLatency::QUANTUM {
            Some(Type::FLOAT)
        } else if key == ParamProcessLatency::RATE {
            Some(Type::INT)
        } else if key == ParamProcessLatency::NS {
            Some(Type::LONG)
        } else {
            None
        }
    }

    fn from_key_and_pod(key: u32, pod: PodRef<'a>) -> Self {
        if key == ParamProcessLatency::QUANTUM {
            ParamProcessLatencyType::QUANTUM(pod)
        } else if key == ParamProcessLatency::RATE {
            ParamProcessLatencyType::RATE(pod)
        } else if key == ParamProcessLatency::NS {
            ParamProcessLatencyType::NS(pod)
        } else {
            vstd::pervasive::unreached()
        }
    }

    fn key(&self) -> u32 {
        match self {
            ParamProcessLatencyType::QUANTUM(_) => ParamProcessLatency::QUANTUM,
            ParamProcessLatencyType::RATE(_) => ParamProcessLatency::RATE,
            ParamProcessLatencyType::NS(_) => ParamProcessLatency::NS,
        }
    }

    fn pod(&self) -> PodRef<'a> {
        match self {
            ParamProcessLatencyType::QUANTUM(pod) => *pod,
            ParamProcessLatencyType::RATE(pod) => *pod,
            ParamProcessLatencyType::NS(pod) => *pod,
        }
    }
}

} // verus!

verus! {

/// The pod type that each key of a [ParamProcessLatencyType] prop is read as, fixed by SPA, with every
/// other key unknown; and the key that each variant is written with. A prop whose pod has
/// its key's type reads back as the variant of that key.
pub proof fn lemma_key_table<'a>(key: u32, value: ParamProcessLatencyType<'a>)
    ensures
        ParamProcessLatencyType::spec_key_type(ParamProcessLatency::QUANTUM) == Some(Type::FLOAT),
        ParamProcessLatencyType::spec_key_type(ParamProcessLatency::RATE) == Some(Type::INT),
        ParamProcessLatencyType::spec_key_type(ParamProcessLatency::NS) == Some(Type::LONG),
        (key != ParamProcessLatency::QUANTUM && key != ParamProcessLatency::RATE && key != ParamProcessLatency::NS) ==> ParamProcessLatencyType::spec_key_type(key) is None,
        value is QUANTUM ==> value.spec_key() == ParamProcessLatency::QUANTUM,
        value is RATE ==> value.spec_key() == ParamProcessLatency::RATE,
        value is NS ==> value.spec_key() == ParamProcessLatency::NS,
{
}

} // verus!

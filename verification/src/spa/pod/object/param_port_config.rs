//! Props of the port configuration parameter objects.
use vstd::prelude::*;

use crate::spa::pod::object::prop_core::PodPropKeyType;
use crate::spa::pod::PodRef;
use crate::spa::type_::Type;

verus! {

/// Keys of the props of a port configuration parameter object.
pub struct ParamPortConfig;

impl ParamPortConfig {
    pub const START: u32 = 0;
    pub const DIRECTION: u32 = 1;
    pub const MODE: u32 = 2;
    pub const MONITOR: u32 = 3;
    pub const CONTROL: u32 = 4;
    pub const FORMAT: u32 = 5;
}

/// A prop of a port configuration parameter object.
/// Each variant holds the pod of the prop, which has the type that the key names.
#[allow(non_camel_case_types)]
#[derive(Debug, Clone, Copy)]
pub enum ParamPortConfigType<'a> {
    DIRECTION(PodRef<'a>),
    MODE(PodRef<'a>),
    MONITOR(PodRef<'a>),
    CONTROL(PodRef<'a>),
    FORMAT(PodRef<'a>),
}

impl<'a> PodPropKeyType<'a> for ParamPortConfigType<'a> {
    open spec fn spec_key_type(key: u32) -> Option<u32> {
        if key == ParamPortConfig::DIRECTION {
            Some(Type::ID)
        } else if key == ParamPortConfig::MODE {
            Some(Type::ID)
        } else if key == ParamPortConfig::MONITOR {
            Some(Type::BOOL)
        } else if key == ParamPortConfig::CONTROL {
            Some(Type::BOOL)
        } else if key == ParamPortConfig::FORMAT {
            Some(Type::OBJECT)
        } else {
            None
        }
    }

    open spec fn spec_key(&self) -> u32 {
        match *self {
            ParamPortConfigType::DIRECTION(_) => ParamPortConfig::DIRECTION,
            ParamPortConfigType::MODE(_) => ParamPortConfig::MODE,
            ParamPortConfigType::MONITOR(_) => ParamPortConfig::MONITOR,
            ParamPortConfigType::CONTROL(_) => ParamPortConfig::CONTROL,
            ParamPortConfigType::FORMAT(_) => ParamPortConfig::FORMAT,
        }
    }

    open spec fn spec_pod(&self) -> PodRef<'a> {
        match *self {
            ParamPortConfigType::DIRECTION(pod) => pod,
            ParamPortConfigType::MODE(pod) => pod,
            ParamPortConfigType::MONITOR(pod) => pod,
            ParamPortConfigType::CONTROL(pod) => pod,
            ParamPortConfigType::FORMAT(pod) => pod,
        }
    }

    proof fn lemma_key_known(&self) {
    }

    fn key_type(key: u32) -> Option<u32> {
        if key == ParamPortConfig::DIRECTION {
            Some(Type::ID)
        } else if key == ParamPortConfig::MODE {
            Some(Type::ID)
        } else if key == ParamPortConfig::MONITOR {
            Some(Type::BOOL)
        } else if key == ParamPortConfig::CONTROL {
            Some(Type::BOOL)
        } else if key == ParamPortConfig::FORMAT {
            Some(Type::OBJECT)
        } else {
            None
        }
    }

    fn from_key_and_pod(key: u32, pod: PodRef<'a>) -> Self {
        if key == ParamPortConfig::DIRECTION {
            ParamPortConfigType::DIRECTION(pod)
        } else if key == ParamPortConfig::MODE {
            ParamPortConfigType::MODE(pod)
        } else if key == ParamPortConfig::MONITOR {
            ParamPortConfigType::MONITOR(pod)
        } else if key == ParamPortConfig::CONTROL {
            ParamPortConfigType::CONTROL(pod)
        } else if key == ParamPortConfig::FORMAT {
            ParamPortConfigType::FORMAT(pod)
        } else {
            vstd::pervasive::unreached()
        }
    }

    fn key(&self) -> u32 {
        match self {
            ParamPortConfigType::DIRECTION(_) => ParamPortConfig::DIRECTION,
            ParamPortConfigType::MODE(_) => ParamPortConfig::MODE,
            ParamPortConfigType::MONITOR(_) => ParamPortConfig::MONITOR,
            ParamPortConfigType::CONTROL(_) => ParamPortConfig::CONTROL,
            ParamPortConfigType::FORMAT(_) => ParamPortConfig::FORMAT,
        }
    }

    fn pod(&self) -> PodRef<'a> {
        match self {
            ParamPortConfigType::DIRECTION(pod) => *pod,
            ParamPortConfigType::MODE(pod) => *pod,
            ParamPortConfigType::MONITOR(pod) => *pod,
            ParamPortConfigType::CONTROL(pod) => *pod,
            ParamPortConfigType::FORMAT(pod) => *pod,
        }
    }
}

/// Directions of ports.
pub struct Direction;

impl Direction {
    pub const INPUT: u32 = 0;
    pub const OUTPUT: u32 = 1;
}

/// Port configuration modes.
pub struct ParamPortConfigMode;

impl ParamPortConfigMode {
    pub const NONE: u32 = 0;
    pub const PASSTHROUGH: u32 = 1;
    pub const CONVERT: u32 = 2;
    pub const DSP: u32 = 3;
}

} // verus!

verus! {

/// The pod type that each key of a [ParamPortConfigType] prop is read as, fixed by SPA, with every
/// other key unknown; and the key that each variant is written with. A prop whose pod has
/// its key's type reads back as the variant of that key.
pub proof fn lemma_key_table<'a>(key: u32, value: ParamPortConfigType<'a>)
    ensures
        ParamPortConfigType::spec_key_type(ParamPortConfig::DIRECTION) == Some(Type::ID),
        ParamPortConfigType::spec_key_type(ParamPortConfig::MODE) == Some(Type::ID),
        ParamPortConfigType::spec_key_type(ParamPortConfig::MONITOR) == Some(Type::BOOL),
        ParamPortConfigType::spec_key_type(ParamPortConfig::CONTROL) == Some(Type::BOOL),
        ParamPortConfigType::spec_key_type(ParamPortConfig::FORMAT) == Some(Type::OBJECT),
        (key != ParamPortConfig::DIRECTION && key != ParamPortConfig::MODE && key != ParamPortConfig::MONITOR && key != ParamPortConfig::CONTROL && key != ParamPortConfig::FORMAT) ==> ParamPortConfigType::spec_key_type(key) is None,
        value is DIRECTION ==> value.spec_key() == ParamPortConfig::DIRECTION,
        value is MODE ==> value.spec_key() == ParamPortConfig::MODE,
        value is MONITOR ==> value.spec_key() == ParamPortConfig::MONITOR,
        value is CONTROL ==> value.spec_key() == ParamPortConfig::CONTROL,
        value is FORMAT ==> value.spec_key() == ParamPortConfig::FORMAT,
{
}

} // verus!

//! Props of the io parameter objects.
use vstd::prelude::*;

use crate::spa::pod::object::prop_core::PodPropKeyType;
use crate::spa::pod::PodRef;
use crate::spa::type_::Type;

verus! {

/// Keys of the props of an io parameter object.
pub struct ParamIO;

impl ParamIO {
    pub const START: u32 = 0;
    pub const ID: u32 = 1;
    pub const SIZE: u32 = 2;
}

/// A prop of an io parameter object.
/// Each variant holds the pod of the prop, which has the type that the key names.
#[allow(non_camel_case_types)]
#[derive(Debug, Clone, Copy)]
pub enum ParamIOType<'a> {
    ID(PodRef<'a>),
    SIZE(PodRef<'a>),
}

impl<'a> PodPropKeyType<'a> for ParamIOType<'a> {
    open spec fn spec_key_type(key: u32) -> Option<u32> {
        if key == ParamIO::ID {
            Some(Type::ID)
        } else if key == ParamIO::SIZE {
            Some(Type::INT)
        } else {
            None
        }
    }

    open spec fn spec_key(&self) -> u32 {
        match *self {
            ParamIOType::ID(_) => ParamIO::ID,
            ParamIOType::SIZE(_) => ParamIO::SIZE,
        }
    }

    open spec fn spec_pod(&self) -> PodRef<'a> {
        match *self {
            ParamIOType::ID(pod) => pod,
            ParamIOType::SIZE(pod) => pod,
        }
    }

    proof fn lemma_key_known(&self) {
    }

    fn key_type(key: u32) -> Option<u32> {
        if key == ParamIO::ID {
            Some(Type::ID)
        } else if key == ParamIO::SIZE {
            Some(Type::INT)
        } else {
            None
        }
    }

    fn from_key_and_pod(key: u32, pod: PodRef<'a>) -> Self {
        if key == ParamIO::ID {
            ParamIOType::ID(pod)
        } else if key == ParamIO::SIZE {
            ParamIOType::SIZE(pod)
        } else {
            vstd::pervasive::unreached()
        }
    }

    fn key(&self) -> u32 {
        match self {
            ParamIOType::ID(_) => ParamIO::ID,
            ParamIOType::SIZE(_) => ParamIO::SIZE,
        }
    }

    fn pod(&self) -> PodRef<'a> {
        match self {
            ParamIOType::ID(pod) => *pod,
            ParamIOType::SIZE(pod) => *pod,
        }
    }
}

/// Types of io areas.
pub struct IOType;

impl IOType {
    pub const INVALID: u32 = 0;
    pub const BUFFERS: u32 = 1;
    pub const RANGE: u32 = 2;
    pub const CLOCK: u32 = 3;
    pub const LATENCY: u32 = 4;
    pub const CONTROL: u32 = 5;
    pub const NOTIFY: u32 = 6;
    pub const POSITION: u32 = 7;
    pub const RATEMATCH: u32 = 8;
    pub const MEMORY: u32 = 9;
}

} // verus!

verus! {

/// The pod type that each key of a [ParamIOType] prop is read as, fixed by SPA, with every
/// other key unknown; and the key that each variant is written with. A prop whose pod has
/// its key's type reads back as the variant of that key.
pub proof fn lemma_key_table<'a>(key: u32, value: ParamIOType<'a>)
    ensures
        ParamIOType::spec_key_type(ParamIO::ID) == Some(Type::ID),
        ParamIOType::spec_key_type(ParamIO::SIZE) == Some(Type::INT),
        (key != ParamIO::ID && key != ParamIO::SIZE) ==> ParamIOType::spec_key_type(key) is None,
        value is ID ==> value.spec_key() == ParamIO::ID,
        value is SIZE ==> value.spec_key() == ParamIO::SIZE,
{
}

} // verus!

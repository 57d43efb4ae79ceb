//! Props of the route parameter objects.
use vstd::prelude::*;

use crate::spa::pod::object::prop_core::PodPropKeyType;
use crate::spa::pod::PodRef;
use crate::spa::type_::Type;

verus! {

/// Keys of the props of a route parameter object.
pub struct ParamRoute;

impl ParamRoute {
    pub const START: u32 = 0;
    pub const INDEX: u32 = 1;
    pub const DIRECTION: u32 = 2;
    pub const DEVICE: u32 = 3;
    pub const NAME: u32 = 4;
    pub const DESCRIPTION: u32 = 5;
    pub const PRIORITY: u32 = 6;
    pub const AVAILABLE: u32 = 7;
    pub const INFO: u32 = 8;
    pub const PROFILES: u32 = 9;
    pub const PROPS: u32 = 10;
    pub const DEVICES: u32 = 11;
    pub const PROFILE: u32 = 12;
    pub const SAVE: u32 = 13;
}

/// A prop of a route parameter object.
/// Each variant holds the pod of the prop, which has the type that the key names.
#[allow(non_camel_case_types)]
#[derive(Debug, Clone, Copy)]
pub enum ParamRouteType<'a> {
    INDEX(PodRef<'a>),
    DIRECTION(PodRef<'a>),
    DEVICE(PodRef<'a>),
    NAME(PodRef<'a>),
    DESCRIPTION(PodRef<'a>),
    PRIORITY(PodRef<'a>),
    AVAILABLE(PodRef<'a>),
    INFO(PodRef<'a>),
    PROFILES(PodRef<'a>),
    PROPS(PodRef<'a>),
    DEVICES(PodRef<'a>),
    PROFILE(PodRef<'a>),
    SAVE(PodRef<'a>),
}

impl<'a> PodPropKeyType<'a> for ParamRouteType<'a> {
    open spec fn spec_key_type(key: u32) -> Option<u32> {
        if key == ParamRoute::INDEX {
            Some(Type::INT)
        } else if key == ParamRoute::DIRECTION {
            Some(Type::ID)
        } else if key == ParamRoute::DEVICE {
            Some(Type::INT)
        } else if key == ParamRoute::NAME {
            Some(Type::STRING)
        } else if key == ParamRoute::DESCRIPTION {
            Some(Type::STRING)
        } else if key == ParamRoute::PRIORITY {
            Some(Type::INT)
        } else if key == ParamRoute::AVAILABLE {
            Some(Type::ID)
        } else if key == ParamRoute::INFO {
            Some(Type::STRUCT)
        } else if key == ParamRoute::PROFILES {
            Some(Type::ARRAY)
        } else if key == ParamRoute::PROPS {
            Some(Type::OBJECT)
        } else if key == ParamRoute::DEVICES {
            Some(Type::ARRAY)
        } else if key == ParamRoute::PROFILE {
            Some(Type::INT)
        } else if key == ParamRoute::SAVE {
            Some(Type::BOOL)
        } else {
            None
        }
    }

    open spec fn spec_key(&self) -> u32 {
        match *self {
            ParamRouteType::INDEX(_) => ParamRoute::INDEX,
            ParamRouteType::DIRECTION(_) => ParamRoute::DIRECTION,
            ParamRouteType::DEVICE(_) => ParamRoute::DEVICE,
            ParamRouteType::NAME(_) => ParamRoute::NAME,
            ParamRouteType::DESCRIPTION(_) => ParamRoute::DESCRIPTION,
            ParamRouteType::PRIORITY(_) => ParamRoute::PRIORITY,
            ParamRouteType::AVAILABLE(_) => ParamRoute::AVAILABLE,
            ParamRouteType::INFO(_) => ParamRoute::INFO,
            ParamRouteType::PROFILES(_) => ParamRoute::PROFILES,
            ParamRouteType::PROPS(_) => ParamRoute::PROPS,
            ParamRouteType::DEVICES(_) => ParamRoute::DEVICES,
            ParamRouteType::PROFILE(_) => ParamRoute::PROFILE,
            ParamRouteType::SAVE(_) => ParamRoute::SAVE,
        }
    }

    open spec fn spec_pod(&self) -> PodRef<'a> {
        match *self {
            ParamRouteType::INDEX(pod) => pod,
            ParamRouteType::DIRECTION(pod) => pod,
            ParamRouteType::DEVICE(pod) => pod,
            ParamRouteType::NAME(pod) => pod,
            ParamRouteType::DESCRIPTION(pod) => pod,
            ParamRouteType::PRIORITY(pod) => pod,
            ParamRouteType::AVAILABLE(pod) => pod,
            ParamRouteType::INFO(pod) => pod,
            ParamRouteType::PROFILES(pod) => pod,
            ParamRouteType::PROPS(pod) => pod,
            ParamRouteType::DEVICES(pod) => pod,
            ParamRouteType::PROFILE(pod) => pod,
            ParamRouteType::SAVE(pod) => pod,
        }
    }

    proof fn lemma_key_known(&self) {
    }

    fn key_type(key: u32) -> Option<u32> {
        if key == ParamRoute::INDEX {
            Some(Type::INT)
        } else if key == ParamRoute::DIRECTION {
            Some(Type::ID)
        } else if key == ParamRoute::DEVICE {
            Some(Type::INT)
        } else if key == ParamRoute::NAME {
            Some(Type::STRING)
        } else if key == ParamRoute::DESCRIPTION {
            Some(Type::STRING)
        } else if key == ParamRoute::PRIORITY {
            Some(Type::INT)
        } else if key == ParamRoute::AVAILABLE {
            Some(Type::ID)
        } else if key == ParamRoute::INFO {
            Some(Type::STRUCT)
        } else if key == ParamRoute::PROFILES {
            Some(Type::ARRAY)
        } else if key == ParamRoute::PROPS {
            Some(Type::OBJECT)
        } else if key == ParamRoute::DEVICES {
            Some(Type::ARRAY)
        } else if key == ParamRoute::PROFILE {
            Some(Type::INT)
        } else if key == ParamRoute::SAVE {
            Some(Type::BOOL)
        } else {
            None
        }
    }

    fn from_key_and_pod(key: u32, pod: PodRef<'a>) -> Self {
        if key == ParamRoute::INDEX {
            ParamRouteType::INDEX(pod)
        } else if key == ParamRoute::DIRECTION {
            ParamRouteType::DIRECTION(pod)
        } else if key == ParamRoute::DEVICE {
            ParamRouteType::DEVICE(pod)
        } else if key == ParamRoute::NAME {
            ParamRouteType::NAME(pod)
        } else if key == ParamRoute::DESCRIPTION {
            ParamRouteType::DESCRIPTION(pod)
        } else if key == ParamRoute::PRIORITY {
            ParamRouteType::PRIORITY(pod)
        } else if key == ParamRoute::AVAILABLE {
            ParamRouteType::AVAILABLE(pod)
        } else if key == ParamRoute::INFO {
            ParamRouteType::INFO(pod)
        } else if key == ParamRoute::PROFILES {
            ParamRouteType::PROFILES(pod)
        } else if key == ParamRoute::PROPS {
            ParamRouteType::PROPS(pod)
        } else if key == ParamRoute::DEVICES {
            ParamRouteType::DEVICES(pod)
        } else if key == ParamRoute::PROFILE {
            ParamRouteType::PROFILE(pod)
        } else if key == ParamRoute::SAVE {
            ParamRouteType::SAVE(pod)
        } else {
            vstd::pervasive::unreached()
        }
    }

    fn key(&self) -> u32 {
        match self {
            ParamRouteType::INDEX(_) => ParamRoute::INDEX,
            ParamRouteType::DIRECTION(_) => ParamRoute::DIRECTION,
            ParamRouteType::DEVICE(_) => ParamRoute::DEVICE,
            ParamRouteType::NAME(_) => ParamRoute::NAME,
            ParamRouteType::DESCRIPTION(_) => ParamRoute::DESCRIPTION,
            ParamRouteType::PRIORITY(_) => ParamRoute::PRIORITY,
            ParamRouteType::AVAILABLE(_) => ParamRoute::AVAILABLE,
            ParamRouteType::INFO(_) => ParamRoute::INFO,
            ParamRouteType::PROFILES(_) => ParamRoute::PROFILES,
            ParamRouteType::PROPS(_) => ParamRoute::PROPS,
            ParamRouteType::DEVICES(_) => ParamRoute::DEVICES,
            ParamRouteType::PROFILE(_) => ParamRoute::PROFILE,
            ParamRouteType::SAVE(_) => ParamRoute::SAVE,
        }
    }

    fn pod(&self) -> PodRef<'a> {
        match self {
            ParamRouteType::INDEX(pod) => *pod,
            ParamRouteType::DIRECTION(pod) => *pod,
            ParamRouteType::DEVICE(pod) => *pod,
            ParamRouteType::NAME(pod) => *pod,
            ParamRouteType::DESCRIPTION(pod) => *pod,
            ParamRouteType::PRIORITY(pod) => *pod,
            ParamRouteType::AVAILABLE(pod) => *pod,
            ParamRouteType::INFO(pod) => *pod,
            ParamRouteType::PROFILES(pod) => *pod,
            ParamRouteType::PROPS(pod) => *pod,
            ParamRouteType::DEVICES(pod) => *pod,
            ParamRouteType::PROFILE(pod) => *pod,
            ParamRouteType::SAVE(pod) => *pod,
        }
    }
}

} // verus!

verus! {

/// The pod type that each key of a [ParamRouteType] prop is read as, fixed by SPA, with every
/// other key unknown; and the key that each variant is written with. A prop whose pod has
/// its key's type reads back as the variant of that key.
pub proof fn lemma_key_table<'a>(key: u32, value: ParamRouteType<'a>)
    ensures
        ParamRouteType::spec_key_type(ParamRoute::INDEX) == Some(Type::INT),
        ParamRouteType::spec_key_type(ParamRoute::DIRECTION) == Some(Type::ID),
        ParamRouteType::spec_key_type(ParamRoute::DEVICE) == Some(Type::INT),
        ParamRouteType::spec_key_type(ParamRoute::NAME) == Some(Type::STRING),
        ParamRouteType::spec_key_type(ParamRoute::DESCRIPTION) == Some(Type::STRING),
        ParamRouteType::spec_key_type(ParamRoute::PRIORITY) == Some(Type::INT),
        ParamRouteType::spec_key_type(ParamRoute::AVAILABLE) == Some(Type::ID),
        ParamRouteType::spec_key_type(ParamRoute::INFO) == Some(Type::STRUCT),
        ParamRouteType::spec_key_type(ParamRoute::PROFILES) == Some(Type::ARRAY),
        ParamRouteType::spec_key_type(ParamRoute::PROPS) == Some(Type::OBJECT),
        ParamRouteType::spec_key_type(ParamRoute::DEVICES) == Some(Type::ARRAY),
        ParamRouteType::spec_key_type(ParamRoute::PROFILE) == Some(Type::INT),
        ParamRouteType::spec_key_type(ParamRoute::SAVE) == Some(Type::BOOL),
        (key != ParamRoute::INDEX && key != ParamRoute::DIRECTION && key != ParamRoute::DEVICE && key != ParamRoute::NAME && key != ParamRoute::DESCRIPTION && key != ParamRoute::PRIORITY && key != ParamRoute::AVAILABLE && key != ParamRoute::INFO && key != ParamRoute::PROFILES && key != ParamRoute::PROPS && key != ParamRoute::DEVICES && key != ParamRoute::PROFILE && key != ParamRoute::SAVE) ==> ParamRouteType::spec_key_type(key) is None,
        value is INDEX ==> value.spec_key() == ParamRoute::INDEX,
        value is DIRECTION ==> value.spec_key() == ParamRoute::DIRECTION,
        value is DEVICE ==> value.spec_key() == ParamRoute::DEVICE,
        value is NAME ==> value.spec_key() == ParamRoute::NAME,
        value is DESCRIPTION ==> value.spec_key() == ParamRoute::DESCRIPTION,
        value is PRIORITY ==> value.spec_key() == ParamRoute::PRIORITY,
        value is AVAILABLE ==> value.spec_key() == ParamRoute::AVAILABLE,
        value is INFO ==> value.spec_key() == ParamRoute::INFO,
        value is PROFILES ==> value.spec_key() == ParamRoute::PROFILES,
        value is PROPS ==> value.spec_key() == ParamRoute::PROPS,
        value is DEVICES ==> value.spec_key() == ParamRoute::DEVICES,
        value is PROFILE ==> value.spec_key() == ParamRoute::PROFILE,
        value is SAVE ==> value.spec_key() == ParamRoute::SAVE,
{
}

} // verus!

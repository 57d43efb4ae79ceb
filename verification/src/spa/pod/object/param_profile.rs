//! Props of the profile parameter objects.
use vstd::prelude::*;

use crate::spa::pod::object::prop_core::PodPropKeyType;
use crate::spa::pod::PodRef;
use crate::spa::type_::Type;

verus! {

/// Keys of the props of a profile parameter object.
pub struct ParamProfile;

impl ParamProfile {
    pub const START: u32 = 0;
    pub const INDEX: u32 = 1;
    pub const NAME: u32 = 2;
    pub const DESCRIPTION: u32 = 3;
    pub const PRIORITY: u32 = 4;
    pub const AVAILABLE: u32 = 5;
    pub const INFO: u32 = 6;
    pub const CLASSES: u32 = 7;
    pub const SAVE: u32 = 8;
}

/// A prop of a profile parameter object.
/// Each variant holds the pod of the prop, which has the type that the key names.
#[allow(non_camel_case_types)]
#[derive(Debug, Clone, Copy)]
pub enum ParamProfileType<'a> {
    INDEX(PodRef<'a>),
    NAME(PodRef<'a>),
    DESCRIPTION(PodRef<'a>),
    PRIORITY(PodRef<'a>),
    AVAILABLE(PodRef<'a>),
    INFO(PodRef<'a>),
    CLASSES(PodRef<'a>),
    SAVE(PodRef<'a>),
}

impl<'a> PodPropKeyType<'a> for ParamProfileType<'a> {
    open spec fn spec_key_type(key: u32) -> Option<u32> {
        if key == ParamProfile::INDEX {
            Some(Type::INT)
        } else if key == ParamProfile::NAME {
            Some(Type::STRING)
        } else if key == ParamProfile::DESCRIPTION {
            Some(Type::STRING)
        } else if key == ParamProfile::PRIORITY {
            Some(Type::INT)
        } else if key == ParamProfile::AVAILABLE {
            Some(Type::ID)
        } else if key == ParamProfile::INFO {
            Some(Type::STRUCT)
        } else if key == ParamProfile::CLASSES {
            Some(Type::STRUCT)
        } else if key == ParamProfile::SAVE {
            Some(Type::BOOL)
        } else {
            None
        }
    }

    open spec fn spec_key(&self) -> u32 {
        match *self {
            ParamProfileType::INDEX(_) => ParamProfile::INDEX,
            ParamProfileType::NAME(_) => ParamProfile::NAME,
            ParamProfileType::DESCRIPTION(_) => ParamProfile::DESCRIPTION,
            ParamProfileType::PRIORITY(_) => ParamProfile::PRIORITY,
            ParamProfileType::AVAILABLE(_) => ParamProfile::AVAILABLE,
            ParamProfileType::INFO(_) => ParamProfile::INFO,
            ParamProfileType::CLASSES(_) => ParamProfile::CLASSES,
            ParamProfileType::SAVE(_) => ParamProfile::SAVE,
        }
    }

    open spec fn spec_pod(&self) -> PodRef<'a> {
        match *self {
            ParamProfileType::INDEX(pod) => pod,
            ParamProfileType::NAME(pod) => pod,
            ParamProfileType::DESCRIPTION(pod) => pod,
            ParamProfileType::PRIORITY(pod) => pod,
            ParamProfileType::AVAILABLE(pod) => pod,
            ParamProfileType::INFO(pod) => pod,
            ParamProfileType::CLASSES(pod) => pod,
            ParamProfileType::SAVE(pod) => pod,
        }
    }

    proof fn lemma_key_known(&self) {
    }

    fn key_type(key: u32) -> Option<u32> {
        if key == ParamProfile::INDEX {
            Some(Type::INT)
        } else if key == ParamProfile::NAME {
            Some(Type::STRING)
        } else if key == ParamProfile::DESCRIPTION {
            Some(Type::STRING)
        } else if key == ParamProfile::PRIORITY {
            Some(Type::INT)
        } else if key == ParamProfile::AVAILABLE {
            Some(Type::ID)
        } else if key == ParamProfile::INFO {
            Some(Type::STRUCT)
        } else if key == ParamProfile::CLASSES {
            Some(Type::STRUCT)
        } else if key == ParamProfile::SAVE {
            Some(Type::BOOL)
        } else {
            None
        }
    }

    fn from_key_and_pod(key: u32, pod: PodRef<'a>) -> Self {
        if key == ParamProfile::INDEX {
            ParamProfileType::INDEX(pod)
        } else if key == ParamProfile::NAME {
            ParamProfileType::NAME(pod)
        } else if key == ParamProfile::DESCRIPTION {
            ParamProfileType::DESCRIPTION(pod)
        } else if key == ParamProfile::PRIORITY {
            ParamProfileType::PRIORITY(pod)
        } else if key == ParamProfile::AVAILABLE {
            ParamProfileType::AVAILABLE(pod)
        } else if key == ParamProfile::INFO {
            ParamProfileType::INFO(pod)
        } else if key == ParamProfile::CLASSES {
            ParamProfileType::CLASSES(pod)
        } else if key == ParamProfile::SAVE {
            ParamProfileType::SAVE(pod)
        } else {
            vstd::pervasive::unreached()
        }
    }

    fn key(&self) -> u32 {
        match self {
            ParamProfileType::INDEX(_) => ParamProfile::INDEX,
            ParamProfileType::NAME(_) => ParamProfile::NAME,
            ParamProfileType::DESCRIPTION(_) => ParamProfile::DESCRIPTION,
            ParamProfileType::PRIORITY(_) => ParamProfile::PRIORITY,
            ParamProfileType::AVAILABLE(_) => ParamProfile::AVAILABLE,
            ParamProfileType::INFO(_) => ParamProfile::INFO,
            ParamProfileType::CLASSES(_) => ParamProfile::CLASSES,
            ParamProfileType::SAVE(_) => ParamProfile::SAVE,
        }
    }

    fn pod(&self) -> PodRef<'a> {
        match self {
            ParamProfileType::INDEX(pod) => *pod,
            ParamProfileType::NAME(pod) => *pod,
            ParamProfileType::DESCRIPTION(pod) => *pod,
            ParamProfileType::PRIORITY(pod) => *pod,
            ParamProfileType::AVAILABLE(pod) => *pod,
            ParamProfileType::INFO(pod) => *pod,
            ParamProfileType::CLASSES(pod) => *pod,
            ParamProfileType::SAVE(pod) => *pod,
        }
    }
}

/// Availability of a profile or a route.
pub struct ParamAvailability;

impl ParamAvailability {
    pub const UNKNOWN: u32 = 0;
    pub const NO: u32 = 1;
    pub const YES: u32 = 2;
}

} // verus!

verus! {

/// The pod type that each key of a [ParamProfileType] prop is read as, fixed by SPA, with every
/// other key unknown; and the key that each variant is written with. A prop whose pod has
/// its key's type reads back as the variant of that key.
pub proof fn lemma_key_table<'a>(key: u32, value: ParamProfileType<'a>)
    ensures
        ParamProfileType::spec_key_type(ParamProfile::INDEX) == Some(Type::INT),
        ParamProfileType::spec_key_type(ParamProfile::NAME) == Some(Type::STRING),
        ParamProfileType::spec_key_type(ParamProfile::DESCRIPTION) == Some(Type::STRING),
        ParamProfileType::spec_key_type(ParamProfile::PRIORITY) == Some(Type::INT),
        ParamProfileType::spec_key_type(ParamProfile::AVAILABLE) == Some(Type::ID),
        ParamProfileType::spec_key_type(ParamProfile::INFO) == Some(Type::STRUCT),
        ParamProfileType::spec_key_type(ParamProfile::CLASSES) == Some(Type::STRUCT),
        ParamProfileType::spec_key_type(ParamProfile::SAVE) == Some(Type::BOOL),
        (key != ParamProfile::INDEX && key != ParamProfile::NAME && key != ParamProfile::DESCRIPTION && key != ParamProfile::PRIORITY && key != ParamProfile::AVAILABLE && key != ParamProfile::INFO && key != ParamProfile::CLASSES && key != ParamProfile::SAVE) ==> ParamProfileType::spec_key_type(key) is None,
        value is INDEX ==> value.spec_key() == ParamProfile::INDEX,
        value is NAME ==> value.spec_key() == ParamProfile::NAME,
        value is DESCRIPTION ==> value.spec_key() == ParamProfile::DESCRIPTION,
        value is PRIORITY ==> value.spec_key() == ParamProfile::PRIORITY,
        value is AVAILABLE ==> value.spec_key() == ParamProfile::AVAILABLE,
        value is INFO ==> value.spec_key() == ParamProfile::INFO,
        value is CLASSES ==> value.spec_key() == ParamProfile::CLASSES,
        value is SAVE ==> value.spec_key() == ParamProfile::SAVE,
{
}

} // verus!

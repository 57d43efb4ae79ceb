//! Props of the prop-info objects, which describe a prop.
use vstd::prelude::*;

use crate::spa::pod::object::prop_core::PodPropKeyType;
use crate::spa::pod::PodRef;
use crate::spa::type_::Type;

verus! {

/// Keys of the props of a prop-info object.
pub struct PropInfo;

impl PropInfo {
    pub const START: u32 = 0;
    pub const ID: u32 = 1;
    pub const NAME: u32 = 2;
    pub const TYPE: u32 = 3;
    pub const LABELS: u32 = 4;
    pub const CONTAINER: u32 = 5;
    pub const PARAMS: u32 = 6;
    pub const DESCRIPTION: u32 = 7;
}

/// A prop of a prop-info object.
/// Each variant holds the pod of the prop, which has the type that the key names.
#[allow(non_camel_case_types)]
#[derive(Debug, Clone, Copy)]
pub enum ObjectPropInfoType<'a> {
    ID(PodRef<'a>),
    NAME(PodRef<'a>),
    TYPE(PodRef<'a>),
    LABELS(PodRef<'a>),
    CONTAINER(PodRef<'a>),
    PARAMS(PodRef<'a>),
    DESCRIPTION(PodRef<'a>),
}

impl<'a> PodPropKeyType<'a> for ObjectPropInfoType<'a> {
    open spec fn spec_key_type(key: u32) -> Option<u32> {
        if key == PropInfo::ID {
            Some(Type::ID)
        } else if key == PropInfo::NAME {
            Some(Type::STRING)
        } else if key == PropInfo::TYPE {
            Some(Type::POD)
        } else if key == PropInfo::LABELS {
            Some(Type::STRUCT)
        } else if key == PropInfo::CONTAINER {
            Some(Type::ID)
        } else if key == PropInfo::PARAMS {
            Some(Type::BOOL)
        } else if key == PropInfo::DESCRIPTION {
            Some(Type::STRING)
        } else {
            None
        }
    }

    open spec fn spec_key(&self) -> u32 {
        match *self {
            ObjectPropInfoType::ID(_) => PropInfo::ID,
            ObjectPropInfoType::NAME(_) => PropInfo::NAME,
            ObjectPropInfoType::TYPE(_) => PropInfo::TYPE,
            ObjectPropInfoType::LABELS(_) => PropInfo::LABELS,
            ObjectPropInfoType::CONTAINER(_) => PropInfo::CONTAINER,
            ObjectPropInfoType::PARAMS(_) => PropInfo::PARAMS,
            ObjectPropInfoType::DESCRIPTION(_) => PropInfo::DESCRIPTION,
        }
    }

    open spec fn spec_pod(&self) -> PodRef<'a> {
        match *self {
            ObjectPropInfoType::ID(pod) => pod,
            ObjectPropInfoType::NAME(pod) => pod,
            ObjectPropInfoType::TYPE(pod) => pod,
            ObjectPropInfoType::LABELS(pod) => pod,
            ObjectPropInfoType::CONTAINER(pod) => pod,
            ObjectPropInfoType::PARAMS(pod) => pod,
            ObjectPropInfoType::DESCRIPTION(pod) => pod,
        }
    }

    proof fn lemma_key_known(&self) {
    }

    fn key_type(key: u32) -> Option<u32> {
        if key == PropInfo::ID {
            Some(Type::ID)
        } else if key == PropInfo::NAME {
            Some(Type::STRING)
        } else if key == PropInfo::TYPE {
            Some(Type::POD)
        } else if key == PropInfo::LABELS {
            Some(Type::STRUCT)
        } else if key == PropInfo::CONTAINER {
            Some(Type::ID)
        } else if key == PropInfo::PARAMS {
            Some(Type::BOOL)
        } else if key == PropInfo::DESCRIPTION {
            Some(Type::STRING)
        } else {
            None
        }
    }

    fn from_key_and_pod(key: u32, pod: PodRef<'a>) -> Self {
        if key == PropInfo::ID {
            ObjectPropInfoType::ID(pod)
        } else if key == PropInfo::NAME {
            ObjectPropInfoType::NAME(pod)
        } else if key == PropInfo::TYPE {
            ObjectPropInfoType::TYPE(pod)
        } else if key == PropInfo::LABELS {
            ObjectPropInfoType::LABELS(pod)
        } else if key == PropInfo::CONTAINER {
            ObjectPropInfoType::CONTAINER(pod)
        } else if key == PropInfo::PARAMS {
            ObjectPropInfoType::PARAMS(pod)
        } else if key == PropInfo::DESCRIPTION {
            ObjectPropInfoType::DESCRIPTION(pod)
        } else {
            vstd::pervasive::unreached()
        }
    }

    fn key(&self) -> u32 {
        match self {
            ObjectPropInfoType::ID(_) => PropInfo::ID,
            ObjectPropInfoType::NAME(_) => PropInfo::NAME,
            ObjectPropInfoType::TYPE(_) => PropInfo::TYPE,
            ObjectPropInfoType::LABELS(_) => PropInfo::LABELS,
            ObjectPropInfoType::CONTAINER(_) => PropInfo::CONTAINER,
            ObjectPropInfoType::PARAMS(_) => PropInfo::PARAMS,
            ObjectPropInfoType::DESCRIPTION(_) => PropInfo::DESCRIPTION,
        }
    }

    fn pod(&self) -> PodRef<'a> {
        match self {
            ObjectPropInfoType::ID(pod) => *pod,
            ObjectPropInfoType::NAME(pod) => *pod,
            ObjectPropInfoType::TYPE(pod) => *pod,
            ObjectPropInfoType::LABELS(pod) => *pod,
            ObjectPropInfoType::CONTAINER(pod) => *pod,
            ObjectPropInfoType::PARAMS(pod) => *pod,
            ObjectPropInfoType::DESCRIPTION(pod) => *pod,
        }
    }
}

} // verus!

verus! {

/// The pod type that each key of a [ObjectPropInfoType] prop is read as, fixed by SPA, with every
/// other key unknown; and the key that each variant is written with. A prop whose pod has
/// its key's type reads back as the variant of that key.
pub proof fn lemma_key_table<'a>(key: u32, value: ObjectPropInfoType<'a>)
    ensures
        ObjectPropInfoType::spec_key_type(PropInfo::ID) == Some(Type::ID),
        ObjectPropInfoType::spec_key_type(PropInfo::NAME) == Some(Type::STRING),
        ObjectPropInfoType::spec_key_type(PropInfo::TYPE) == Some(Type::POD),
        ObjectPropInfoType::spec_key_type(PropInfo::LABELS) == Some(Type::STRUCT),
        ObjectPropInfoType::spec_key_type(PropInfo::CONTAINER) == Some(Type::ID),
        ObjectPropInfoType::spec_key_type(PropInfo::PARAMS) == Some(Type::BOOL),
        ObjectPropInfoType::spec_key_type(PropInfo::DESCRIPTION) == Some(Type::STRING),
        (key != PropInfo::ID && key != PropInfo::NAME && key != PropInfo::TYPE && key != PropInfo::LABELS && key != PropInfo::CONTAINER && key != PropInfo::PARAMS && key != PropInfo::DESCRIPTION) ==> ObjectPropInfoType::spec_key_type(key) is None,
        value is ID ==> value.spec_key() == PropInfo::ID,
        value is NAME ==> value.spec_key() == PropInfo::NAME,
        value is TYPE ==> value.spec_key() == PropInfo::TYPE,
        value is LABELS ==> value.spec_key() == PropInfo::LABELS,
        value is CONTAINER ==> value.spec_key() == PropInfo::CONTAINER,
        value is PARAMS ==> value.spec_key() == PropInfo::PARAMS,
        value is DESCRIPTION ==> value.spec_key() == PropInfo::DESCRIPTION,
{
}

} // verus!

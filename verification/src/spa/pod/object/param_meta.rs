//! Props of the metadata parameter objects.
use vstd::prelude::*;

use crate::spa::pod::object::prop_core::PodPropKeyType;
use crate::spa::pod::PodRef;
use crate::spa::type_::Type;

verus! {

/// Keys of the props of a metadata parameter object.
pub struct ParamMeta;

impl ParamMeta {
    pub const START: u32 = 0;
    pub const TYPE: u32 = 1;
    pub const SIZE: u32 = 2;
}

/// A prop of a metadata parameter object.
/// Each variant holds the pod of the prop, which has the type that the key names.
#[allow(non_camel_case_types)]
#[derive(Debug, Clone, Copy)]
pub enum ParamMetaType<'a> {
    TYPE(PodRef<'a>),
    SIZE(PodRef<'a>),
}

impl<'a> PodPropKeyType<'a> for ParamMetaType<'a> {
    open spec fn spec_key_type(key: u32) -> Option<u32> {
        if key == ParamMeta::TYPE {
            Some(Type::ID)
        } else if key == ParamMeta::SIZE {
            Some(Type::INT)
        } else {
            None
        }
    }

    open spec fn spec_key(&self) -> u32 {
        match *self {
            ParamMetaType::TYPE(_) => ParamMeta::TYPE,
            ParamMetaType::SIZE(_) => ParamMeta::SIZE,
        }
    }

    open spec fn spec_pod(&self) -> PodRef<'a> {
        match *self {
            ParamMetaType::TYPE(pod) => pod,
            ParamMetaType::SIZE(pod) => pod,
        }
    }

    proof fn lemma_key_known(&self) {
    }

    fn key_type(key: u32) -> Option<u32> {
        if key == ParamMeta::TYPE {
            Some(Type::ID)
        } else if key == ParamMeta::SIZE {
            Some(Type::INT)
        } else {
            None
        }
    }

    fn from_key_and_pod(key: u32, pod: PodRef<'a>) -> Self {
        if key == ParamMeta::TYPE {
            ParamMetaType::TYPE(pod)
        } else if key == ParamMeta::SIZE {
            ParamMetaType::SIZE(pod)
        } else {
            vstd::pervasive::unreached()
        }
    }

    fn key(&self) -> u32 {
        match self {
            ParamMetaType::TYPE(_) => ParamMeta::TYPE,
            ParamMetaType::SIZE(_) => ParamMeta::SIZE,
        }
    }

    fn pod(&self) -> PodRef<'a> {
        match self {
            ParamMetaType::TYPE(pod) => *pod,
            ParamMetaType::SIZE(pod) => *pod,
        }
    }
}

} // verus!

verus! {

/// The pod type that each key of a [ParamMetaType] prop is read as, fixed by SPA, with every
/// other key unknown; and the key that each variant is written with. A prop whose pod has
/// its key's type reads back as the variant of that key.
pub proof fn lemma_key_table<'a>(key: u32, value: ParamMetaType<'a>)
    ensures
        ParamMetaType::spec_key_type(ParamMeta::TYPE) == Some(Type::ID),
        ParamMetaType::spec_key_type(ParamMeta::SIZE) == Some(Type::INT),
        (key != ParamMeta::TYPE && key != ParamMeta::SIZE) ==> ParamMetaType::spec_key_type(key) is None,
        value is TYPE ==> value.spec_key() == ParamMeta::TYPE,
        value is SIZE ==> value.spec_key() == ParamMeta::SIZE,
{
}

} // verus!

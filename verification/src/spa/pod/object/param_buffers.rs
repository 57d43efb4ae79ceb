//! Props of the buffers parameter objects.
use vstd::prelude::*;

use crate::spa::pod::object::prop_core::PodPropKeyType;
use crate::spa::pod::PodRef;
use crate::spa::type_::Type;

verus! {

/// Keys of the props of a buffers parameter object.
pub struct ParamBuffers;

impl ParamBuffers {
    pub const START: u32 = 0;
    pub const BUFFERS: u32 = 1;
    pub const BLOCKS: u32 = 2;
    pub const SIZE: u32 = 3;
    pub const STRIDE: u32 = 4;
    pub const ALIGN: u32 = 5;
    pub const DATATYPE: u32 = 6;
}

/// A prop of a buffers parameter object.
/// Each variant holds the pod of the prop, which has the type that the key names.
#[allow(non_camel_case_types)]
#[derive(Debug, Clone, Copy)]
pub enum ParamBuffersType<'a> {
    BUFFERS(PodRef<'a>),
    BLOCKS(PodRef<'a>),
    SIZE(PodRef<'a>),
    STRIDE(PodRef<'a>),
    ALIGN(PodRef<'a>),
    DATATYPE(PodRef<'a>),
}

impl<'a> PodPropKeyType<'a> for ParamBuffersType<'a> {
    open spec fn spec_key_type(key: u32) -> Option<u32> {
        if key == ParamBuffers::BUFFERS {
            Some(Type::CHOICE)
        } else if key == ParamBuffers::BLOCKS {
            Some(Type::CHOICE)
        } else if key == ParamBuffers::SIZE {
            Some(Type::CHOICE)
        } else if key == ParamBuffers::STRIDE {
            Some(Type::CHOICE)
        } else if key == ParamBuffers::ALIGN {
            Some(Type::CHOICE)
        } else if key == ParamBuffers::DATATYPE {
            Some(Type::CHOICE)
        } else {
            None
        }
    }

    open spec fn spec_key(&self) -> u32 {
        match *self {
            ParamBuffersType::BUFFERS(_) => ParamBuffers::BUFFERS,
            ParamBuffersType::BLOCKS(_) => ParamBuffers::BLOCKS,
            ParamBuffersType::SIZE(_) => ParamBuffers::SIZE,
            ParamBuffersType::STRIDE(_) => ParamBuffers::STRIDE,
            ParamBuffersType::ALIGN(_) => ParamBuffers::ALIGN,
            ParamBuffersType::DATATYPE(_) => ParamBuffers::DATATYPE,
        }
    }

    open spec fn spec_pod(&self) -> PodRef<'a> {
        match *self {
            ParamBuffersType::BUFFERS(pod) => pod,
            ParamBuffersType::BLOCKS(pod) => pod,
            ParamBuffersType::SIZE(pod) => pod,
            ParamBuffersType::STRIDE(pod) => pod,
            ParamBuffersType::ALIGN(pod) => pod,
            ParamBuffersType::DATATYPE(pod) => pod,
        }
    }

    proof fn lemma_key_known(&self) {
    }

    fn key_type(key: u32) -> Option<u32> {
        if key == ParamBuffers::BUFFERS {
            Some(Type::CHOICE)
        } else if key == ParamBuffers::BLOCKS {
            Some(Type::CHOICE)
        } else if key == ParamBuffers::SIZE {
            Some(Type::CHOICE)
        } else if key == ParamBuffers::STRIDE {
            Some(Type::CHOICE)
        } else if key == ParamBuffers::ALIGN {
            Some(Type::CHOICE)
        } else if key == ParamBuffers::DATATYPE {
            Some(Type::CHOICE)
        } else {
            None
        }
    }

    fn from_key_and_pod(key: u32, pod: PodRef<'a>) -> Self {
        if key == ParamBuffers::BUFFERS {
            ParamBuffersType::BUFFERS(pod)
        } else if key == ParamBuffers::BLOCKS {
            ParamBuffersType::BLOCKS(pod)
        } else if key == ParamBuffers::SIZE {
            ParamBuffersType::SIZE(pod)
        } else if key == ParamBuffers::STRIDE {
            ParamBuffersType::STRIDE(pod)
        } else if key == ParamBuffers::ALIGN {
            ParamBuffersType::ALIGN(pod)
        } else if key == ParamBuffers::DATATYPE {
            ParamBuffersType::DATATYPE(pod)
        } else {
            vstd::pervasive::unreached()
        }
    }

    fn key(&self) -> u32 {
        match self {
            ParamBuffersType::BUFFERS(_) => ParamBuffers::BUFFERS,
            ParamBuffersType::BLOCKS(_) => ParamBuffers::BLOCKS,
            ParamBuffersType::SIZE(_) => ParamBuffers::SIZE,
            ParamBuffersType::STRIDE(_) => ParamBuffers::STRIDE,
            ParamBuffersType::ALIGN(_) => ParamBuffers::ALIGN,
            ParamBuffersType::DATATYPE(_) => ParamBuffers::DATATYPE,
        }
    }

    fn pod(&self) -> PodRef<'a> {
        match self {
            ParamBuffersType::BUFFERS(pod) => *pod,
            ParamBuffersType::BLOCKS(pod) => *pod,
            ParamBuffersType::SIZE(pod) => *pod,
            ParamBuffersType::STRIDE(pod) => *pod,
            ParamBuffersType::ALIGN(pod) => *pod,
            ParamBuffersType::DATATYPE(pod) => *pod,
        }
    }
}

} // verus!

verus! {

/// The pod type that each key of a [ParamBuffersType] prop is read as, fixed by SPA, with every
/// other key unknown; and the key that each variant is written with. A prop whose pod has
/// its key's type reads back as the variant of that key.
pub proof fn lemma_key_table<'a>(key: u32, value: ParamBuffersType<'a>)
    ensures
        ParamBuffersType::spec_key_type(ParamBuffers::BUFFERS) == Some(Type::CHOICE),
        ParamBuffersType::spec_key_type(ParamBuffers::BLOCKS) == Some(Type::CHOICE),
        ParamBuffersType::spec_key_type(ParamBuffers::SIZE) == Some(Type::CHOICE),
        ParamBuffersType::spec_key_type(ParamBuffers::STRIDE) == Some(Type::CHOICE),
        ParamBuffersType::spec_key_type(ParamBuffers::ALIGN) == Some(Type::CHOICE),
        ParamBuffersType::spec_key_type(ParamBuffers::DATATYPE) == Some(Type::CHOICE),
        (key != ParamBuffers::BUFFERS && key != ParamBuffers::BLOCKS && key != ParamBuffers::SIZE && key != ParamBuffers::STRIDE && key != ParamBuffers::ALIGN && key != ParamBuffers::DATATYPE) ==> ParamBuffersType::spec_key_type(key) is None,
        value is BUFFERS ==> value.spec_key() == ParamBuffers::BUFFERS,
        value is BLOCKS ==> value.spec_key() == ParamBuffers::BLOCKS,
        value is SIZE ==> value.spec_key() == ParamBuffers::SIZE,
        value is STRIDE ==> value.spec_key() == ParamBuffers::STRIDE,
        value is ALIGN ==> value.spec_key() == ParamBuffers::ALIGN,
        value is DATATYPE ==> value.spec_key() == ParamBuffers::DATATYPE,
{
}

} // verus!

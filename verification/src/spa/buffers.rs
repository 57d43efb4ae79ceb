//! Buffers: metadata elements and data blocks.
pub mod chunk;
pub mod data;
pub mod meta;

use vstd::prelude::*;

use crate::spa::buffers::data::DataRef;
use crate::spa::buffers::meta::MetaRef;

verus! {

/// A buffer: its metadata elements and its data blocks.
pub struct BufferRef {
    metas: Vec<MetaRef>,
    datas: Vec<DataRef>,
}

impl BufferRef {
    /// A buffer with the given metadata elements and data blocks.
    pub fn new(metas: Vec<MetaRef>, datas: Vec<DataRef>) -> (buffer: Self)
        ensures
            buffer.spec_metas() == metas@,
            buffer.spec_datas() == datas@,
    {
        BufferRef { metas, datas }
    }

    /// The metadata elements.
    pub closed spec fn spec_metas(&self) -> Seq<MetaRef> {
        self.metas@
    }

    /// The data blocks.
    pub closed spec fn spec_datas(&self) -> Seq<DataRef> {
        self.datas@
    }

    /// The metadata elements.
    pub fn metas(&self) -> (metas: &[MetaRef])
        ensures
            metas@ == self.spec_metas(),
    {
        self.metas.as_slice()
    }

    /// The data blocks.
    pub fn datas(&self) -> (datas: &[DataRef])
        ensures
            datas@ == self.spec_datas(),
    {
        self.datas.as_slice()
    }
}

} // verus!

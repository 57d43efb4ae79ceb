//! PipeWire Simple Plugin API: types, parameters, the SPA list and the POD format.
pub mod buffers;
pub mod dict;
pub mod interface;
pub mod io;
pub mod list;
pub mod param;
pub mod pod;
pub mod type_;

use vstd::prelude::*;

verus! {

/// Invalid identifier.
pub const SPA_ID_INVALID: u32 = 0xffffffff;

} // verus!

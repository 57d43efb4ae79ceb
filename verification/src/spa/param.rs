//! Parameters of nodes and ports: their types and the information records about them.
use vstd::prelude::*;

verus! {

/// Flags of a parameter information record.
#[derive(Debug, Clone, Copy, PartialEq, Eq, Structural)]
pub struct Flags {
    bits: u32,
}

impl Flags {
    /// The parameter has a serial number that changes with each update.
    pub const SERIAL: u32 = 1;
    /// The parameter can be read.
    pub const READ: u32 = 2;
    /// The parameter can be written.
    pub const WRITE: u32 = 4;
    /// The parameter can be read and written.
    pub const READWRITE: u32 = 6;

    /// The flags given by `bits`, unknown bits included.
    pub fn from_bits_retain(bits: u32) -> (flags: Flags)
        ensures
            flags.spec_bits() == bits,
    {
        Flags { bits }
    }

    /// The bits of the flags.
    pub closed spec fn spec_bits(&self) -> u32 {
        self.bits
    }

    /// The bits of the flags.
    pub fn bits(&self) -> (bits: u32)
        ensures
            bits == self.spec_bits(),
    {
        self.bits
    }

    /// Whether all the bits of `other` are set.
    pub fn contains(&self, other: Flags) -> (r: bool)
        ensures
            r == (self.spec_bits() & other.spec_bits() == other.spec_bits()),
    {
        self.bits & other.bits == other.bits
    }
}

/// Parameter types.
pub struct ParamType;

impl ParamType {
    pub const INVALID: u32 = 0;
    pub const PROP_INFO: u32 = 1;
    pub const PROPS: u32 = 2;
    pub const ENUM_FORMAT: u32 = 3;
    pub const FORMAT: u32 = 4;
    pub const BUFFERS: u32 = 5;
    pub const META: u32 = 6;
    pub const IO: u32 = 7;
    pub const ENUM_PROFILE: u32 = 8;
    pub const PROFILE: u32 = 9;
    pub const ENUM_PORT_CONFIG: u32 = 10;
    pub const PORT_CONFIG: u32 = 11;
    pub const ENUM_ROUTE: u32 = 12;
    pub const ROUTE: u32 = 13;
    pub const CONTROL: u32 = 14;
    pub const LATENCY: u32 = 15;
    pub const PROCESS_LATENCY: u32 = 16;
}

/// Information record about a parameter, as laid out in memory.
#[derive(Debug, Clone, Copy)]
pub struct ParamInfoRef {
    /// Parameter type.
    pub id: u32,
    /// Raw flags.
    pub flags: u32,
    /// Private user field.
    pub user: u32,
    /// Private sequence number.
    pub seq: i32,
}

impl ParamInfoRef {
    /// Parameter type.
    pub fn id(&self) -> (id: u32)
        ensures
            id == self.id,
    {
        self.id
    }

    /// Flags of the parameter.
    pub fn flags(&self) -> (flags: Flags)
        ensures
            flags.spec_bits() == self.flags,
    {
        Flags::from_bits_retain(self.flags)
    }
}

/// Information about a parameter: its type and flags.
#[derive(Debug, Clone, Copy)]
pub struct ParamInfo {
    id: u32,
    flags: Flags,
}

impl ParamInfo {
    /// Parameter type, as seen by the specification.
    pub closed spec fn spec_id(&self) -> u32 {
        self.id
    }

    /// Flags, as seen by the specification.
    pub closed spec fn spec_flags(&self) -> Flags {
        self.flags
    }

    /// The information held by the record `ref_`.
    pub fn from_ref(ref_: &ParamInfoRef) -> (info: Self)
        ensures
            info.spec_id() == ref_.id,
            info.spec_flags().spec_bits() == ref_.flags,
    {
        ParamInfo { id: ref_.id(), flags: ref_.flags() }
    }

    /// Parameter type.
    pub fn id(&self) -> (id: u32)
        ensures
            id == self.spec_id(),
    {
        self.id
    }

    /// Flags of the parameter.
    pub fn flags(&self) -> (flags: Flags)
        ensures
            flags == self.spec_flags(),
    {
        self.flags
    }
}

} // verus!

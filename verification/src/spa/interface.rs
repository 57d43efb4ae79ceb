//! Interfaces: a type name and a version, the methods of which are called through a table.
use vstd::prelude::*;

verus! {

/// An interface: its type name and its version.
#[derive(Debug, Clone, PartialEq, Eq)]
pub struct InterfaceRef {
    type_: Option<Vec<u8>>,
    version: u32,
}

impl InterfaceRef {
    /// The interface with the given type name, without its NUL terminator, and version.
    pub fn new(type_: Option<Vec<u8>>, version: u32) -> (r: Self)
        ensures
            r.spec_version() == version,
            r.spec_type() == type_,
    {
        InterfaceRef { type_, version }
    }

    /// Type name, as seen by the specification.
    pub closed spec fn spec_type(&self) -> Option<Vec<u8>> {
        self.type_
    }

    /// Version, as seen by the specification.
    pub closed spec fn spec_version(&self) -> u32 {
        self.version
    }

    /// Type name of the interface, if it has one.
    pub fn type_(&self) -> (r: Option<&[u8]>)
        ensures
            self.spec_type() is None ==> r is None,
            self.spec_type() matches Some(t) ==> (r matches Some(s) && s@ == t@),
    {
        match &self.type_ {
            Some(t) => Some(t.as_slice()),
            None => None,
        }
    }

    /// Version of the interface.
    pub fn version(&self) -> (r: u32)
        ensures
            r == self.spec_version(),
    {
        self.version
    }

    /// Whether the interface has at least the version `version_min`.
    pub fn version_min(&self, version_min: u32) -> (r: bool)
        ensures
            r == (self.spec_version() >= version_min),
    {
        version_min == 0 || self.version > version_min - 1
    }
}

} // verus!

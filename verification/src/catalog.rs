//! The catalog of Lua releases: where each release's source tree lies and
//! what the library built from it is called.

use vstd::prelude::*;

verus! {

/// A release of Lua that can be built.
#[derive(Clone, Copy, Debug, PartialEq, Eq, Structural)]
pub enum Version {
    Lua51,
    Lua52,
    Lua53,
    Lua54,
}

impl Version {
    /// The directory that holds this release's source tree.
    pub open spec fn source_dir_name(self) -> Seq<char> {
        match self {
            Version::Lua51 => "lua-5.1.5"@,
            Version::Lua52 => "lua-5.2.4"@,
            Version::Lua53 => "lua-5.3.6"@,
            Version::Lua54 => "lua-5.4.8"@,
        }
    }

    /// The name of the library built from this release.
    pub open spec fn library_name(self) -> Seq<char> {
        match self {
            Version::Lua51 => "lua5.1"@,
            Version::Lua52 => "lua5.2"@,
            Version::Lua53 => "lua5.3"@,
            Version::Lua54 => "lua5.4"@,
        }
    }

    /// This is the earliest release of the catalog.
    pub open spec fn is_earliest(self) -> bool {
        self == Version::Lua51
    }

    /// This is the newest release of the catalog.
    pub open spec fn is_newest(self) -> bool {
        self == Version::Lua54
    }

    /// The directory that holds this release's source tree.
    pub fn source_dir(&self) -> (name: &'static str)
        ensures
            name@ == self.source_dir_name(),
    {
        match self {
            Version::Lua51 => "lua-5.1.5",
            Version::Lua52 => "lua-5.2.4",
            Version::Lua53 => "lua-5.3.6",
            Version::Lua54 => "lua-5.4.8",
        }
    }

    /// The name of the library built from this release.
    pub fn lib_name(&self) -> (name: &'static str)
        ensures
            name@ == self.library_name(),
    {
        match self {
            Version::Lua51 => "lua5.1",
            Version::Lua52 => "lua5.2",
            Version::Lua53 => "lua5.3",
            Version::Lua54 => "lua5.4",
        }
    }
}

} // verus!

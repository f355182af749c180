//! The flags with which an environment can be opened.
use vstd::prelude::*;

verus! {

/// Environment flags (see the storage engine's documentation for each).
#[derive(Debug, Clone, Copy, PartialEq, Eq, Structural)]
pub enum Flags {
    Fixedmap,
    NoSubDir,
    NoSync,
    RdOnly,
    NoMetaSync,
    WriteMap,
    MapAsync,
    NoTls,
    NoLock,
    NoRdAhead,
    NoMemInit,
}

/// The bit that a flag sets in the engine's flag word.
pub open spec fn flag_bits(flag: Flags) -> u32 {
    match flag {
        Flags::Fixedmap => 0x01,
        Flags::NoSubDir => 0x4000,
        Flags::NoSync => 0x10000,
        Flags::RdOnly => 0x20000,
        Flags::NoMetaSync => 0x40000,
        Flags::WriteMap => 0x80000,
        Flags::MapAsync => 0x100000,
        Flags::NoTls => 0x200000,
        Flags::NoLock => 0x400000,
        Flags::NoRdAhead => 0x800000,
        Flags::NoMemInit => 0x1000000,
    }
}

impl Flags {
    /// The bit that this flag sets in the engine's flag word.
    pub fn bits(self) -> (r: u32)
        ensures
            r == flag_bits(self),
    {
        match self {
            Flags::Fixedmap => 0x01,
            Flags::NoSubDir => 0x4000,
            Flags::NoSync => 0x10000,
            Flags::RdOnly => 0x20000,
            Flags::NoMetaSync => 0x40000,
            Flags::WriteMap => 0x80000,
            Flags::MapAsync => 0x100000,
            Flags::NoTls => 0x200000,
            Flags::NoLock => 0x400000,
            Flags::NoRdAhead => 0x800000,
            Flags::NoMemInit => 0x1000000,
        }
    }
}

} // verus!

//! The durability classes of the host's tables.

use vstd::prelude::*;

verus! {

/// The host's mark of a permanent table.
pub const RELPERSISTENCE_PERMANENT: u8 = 112;

/// The host's mark of an unlogged table.
pub const RELPERSISTENCE_UNLOGGED: u8 = 117;

/// The host's mark of a temporary table.
pub const RELPERSISTENCE_TEMP: u8 = 116;

/// How long a table's contents are kept.
#[derive(Debug, Clone, Copy, PartialEq, Eq, Structural)]
pub enum DurabilityClass {
    /// Kept across restarts and crashes: the one class tables can be made in.
    Permanent,
    /// Not written to the log: not supported.
    Unlogged,
    /// Gone with the session: not supported.
    Temporary,
    /// A mark the host is not known to use.
    Unknown,
}

/// The class that the host's mark `persistence` stands for.
pub open spec fn durability_of(persistence: u8) -> DurabilityClass {
    if persistence == RELPERSISTENCE_UNLOGGED {
        DurabilityClass::Unlogged
    } else if persistence == RELPERSISTENCE_TEMP {
        DurabilityClass::Temporary
    } else if persistence == RELPERSISTENCE_PERMANENT {
        DurabilityClass::Permanent
    } else {
        DurabilityClass::Unknown
    }
}

/// The class that the host's mark `persistence` stands for.
pub fn classify_persistence(persistence: u8) -> (class: DurabilityClass)
    ensures
        class == durability_of(persistence),
{
    if persistence == RELPERSISTENCE_UNLOGGED {
        DurabilityClass::Unlogged
    } else if persistence == RELPERSISTENCE_TEMP {
        DurabilityClass::Temporary
    } else if persistence == RELPERSISTENCE_PERMANENT {
        DurabilityClass::Permanent
    } else {
        DurabilityClass::Unknown
    }
}

} // verus!

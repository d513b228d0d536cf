//! Protocol version management

use vstd::prelude::*;

verus! {

/// Current protocol version
pub const PROTOCOL_VERSION: u8 = 0x01;

/// Check if a version is compatible with the current version.
///
/// Only an exact version match is supported; future versions can
/// implement backward compatibility here.
pub fn is_compatible(version: u8) -> (r: bool)
    ensures
        r == (version == PROTOCOL_VERSION),
{
    version == PROTOCOL_VERSION
}

} // verus!

//! Probes of the platform's dynamic configuration facility.
//!
//! The facility is specific to one vendor's platforms; on every target this
//! build supports it is absent, so each probe reports nothing and topology
//! detection falls through to its lower tiers. Callers must treat an absent
//! answer as the common case.

use vstd::prelude::*;
use crate::topology::parse_apple_chip_model;

verus! {

/// Read an unsigned value from the platform's configuration query facility.
pub fn get_sysctl_u32(name: &str) -> (r: Option<u32>)
    ensures
        r is None,
{
    let _ = name;
    None
}

/// Read a string value from the platform's configuration query facility.
pub fn get_sysctl_string(name: &str) -> (r: Option<String>)
    ensures
        r is None,
{
    let _ = name;
    None
}

/// The parsed chip model of the platform's brand string, when the platform
/// exposes one.
pub fn get_apple_chip_name() -> (r: Option<String>)
    ensures
        r is None,
{
    match get_sysctl_string("machdep.cpu.brand_string") {
        Some(brand) => parse_apple_chip_model(brand.as_str()),
        None => None,
    }
}

} // verus!

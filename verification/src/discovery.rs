//! Device discovery: from the host's device enumeration to the inventory.
//!
//! The host is enumerated with a glob pattern. Walking the file system is
//! the caller's part; it hands over how many device nodes matched. This
//! module compiles the pattern, which is where discovery can fail, and
//! builds the inventory from the count.

use vstd::prelude::*;
use crate::inventory::{Inventory, enumerates};
use crate::text::{decimal, decimal_string};

verus! {

/// The pattern that the device nodes of the host match.
pub const DEVICE_GLOB: &'static str = "/dev/nvidia[0-9]*";

/// Discovery failed: the enumeration pattern is malformed.
#[derive(Debug, PartialEq, Eq)]
pub struct DiscoveryError {
    /// The approximate character index at which the pattern goes wrong.
    pub position: usize,
    /// What is wrong with it.
    pub reason: String,
}

/// What `glob::glob` finds wrong with `pattern`: the position and message of
/// its `PatternError`, or `None` where it accepts the pattern.
///
/// The function has no definition here: which patterns are well formed is
/// for the `glob` crate to say.
pub uninterp spec fn pattern_fault(pattern: Seq<char>) -> Option<(nat, Seq<char>)>;

/// Compiles `pattern` with `glob::glob` and drops the iterator that the
/// call returns without advancing it.
///
/// The contract is believed, not proved. It rests on this: `glob::glob`
/// parses the pattern, first whole and then component by component, and
/// touches no file before the first `next` on its iterator. Whether the
/// call fails, and with which position and message, is therefore a function
/// of the pattern (on a Unix host, where `/` alone separates components).
/// `pattern_fault` names that function.
#[verifier::external_body]
fn compile_pattern(pattern: &str) -> (r: Result<(), DiscoveryError>)
    ensures
        match r {
            Ok(_) => pattern_fault(pattern@) is None,
            Err(e) => pattern_fault(pattern@) == Some((e.position as nat, e.reason@)),
        },
{
    match glob::glob(pattern) {
        Ok(_) => Ok(()),
        Err(e) => Err(DiscoveryError { position: e.pos, reason: e.msg.to_string() }),
    }
}

/// Builds the inventory for `resource_name` on a host where `found` device
/// nodes matched `pattern`.
///
/// Fails if and only if the pattern is malformed, with what `glob` says of
/// it. A host without devices is no failure: the inventory is then empty.
pub fn discover_with(pattern: &str, resource_name: &str, found: usize) -> (r: Result<
    Inventory,
    DiscoveryError,
>)
    ensures
        r is Ok <==> pattern_fault(pattern@) is None,
        match r {
            Ok(inv) => pattern_fault(pattern@) is None && enumerates(
                inv@,
                resource_name@,
                found as nat,
            ),
            Err(e) => pattern_fault(pattern@) == Some((e.position as nat, e.reason@)),
        },
{
    match compile_pattern(pattern) {
        Ok(_) => Ok(Inventory::enumerated(resource_name, found)),
        Err(e) => Err(e),
    }
}

/// Builds the inventory for `resource_name` on a host where `found` device
/// nodes matched `DEVICE_GLOB`.
pub fn discover_devices(resource_name: &str, found: usize) -> (r: Result<
    Inventory,
    DiscoveryError,
>)
    ensures
        r is Ok <==> pattern_fault(DEVICE_GLOB@) is None,
        match r {
            Ok(inv) => pattern_fault(DEVICE_GLOB@) is None && enumerates(
                inv@,
                resource_name@,
                found as nat,
            ),
            Err(e) => pattern_fault(DEVICE_GLOB@) == Some((e.position as nat, e.reason@)),
        },
{
    discover_with(DEVICE_GLOB, resource_name, found)
}

/// The text of the warning about an enumeration that matched nothing.
pub open spec fn empty_warning(pattern: Seq<char>) -> Seq<char> {
    "warning: no devices found matching "@ + pattern
}

/// The warning that an inventory calls for: one that names the pattern if
/// the inventory is empty, none otherwise. An empty inventory is reported,
/// not refused.
pub fn discovery_warning(inventory: &Inventory, pattern: &str) -> (w: Option<String>)
    ensures
        match w {
            Some(text) => inventory@.len() == 0 && text@ == empty_warning(pattern@),
            None => inventory@.len() > 0,
        },
{
    if inventory.is_empty() {
        let mut text = String::from_str("warning: no devices found matching ");
        text.append(pattern);
        Some(text)
    } else {
        None
    }
}

/// The text that describes the malformed pattern of `error`.
pub open spec fn fault_message(position: nat, reason: Seq<char>) -> Seq<char> {
    "Pattern syntax error near position "@ + decimal(position) + ": "@ + reason
}

impl DiscoveryError {
    /// A description of the error for the operator.
    pub fn message(&self) -> (text: String)
        ensures
            text@ == fault_message(self.position as nat, self.reason@),
    {
        let mut text = String::from_str("Pattern syntax error near position ");
        let digits = decimal_string(self.position);
        text.append(digits.as_str());
        text.append(": ");
        text.append(self.reason.as_str());
        text
    }
}

} // verus!

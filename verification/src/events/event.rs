//! Helpers for decoded events.

use vstd::prelude::*;

verus! {

/// The name of a game item-in-hand code.
pub open spec fn spec_item_type_name(item_type: i32) -> Seq<char> {
    match item_type {
        0 => "None"@,
        1 => "Server1U"@,
        2 => "Server7U"@,
        3 => "Server3U"@,
        4 => "Switch"@,
        5 => "Rack"@,
        6 => "CableSpinner"@,
        7 => "PatchPanel"@,
        8 => "SFPModule"@,
        9 => "SFPBox"@,
        _ => "Unknown"@,
    }
}

/// Human-readable name of the game's item-in-hand code; `"Unknown"` outside `0..=9`.
pub fn item_type_name(item_type: i32) -> (s: &'static str)
    ensures
        s@ == spec_item_type_name(item_type),
{
    match item_type {
        0 => "None",
        1 => "Server1U",
        2 => "Server7U",
        3 => "Server3U",
        4 => "Switch",
        5 => "Rack",
        6 => "CableSpinner",
        7 => "PatchPanel",
        8 => "SFPModule",
        9 => "SFPBox",
        _ => "Unknown",
    }
}

} // verus!

//! Small shared utilities: indicator urgency and duration formatting.

use vstd::prelude::*;
use vstd::string::StringExecFns;

use crate::text::{dec_str, push_decimal};

verus! {

/// The urgency tint of a status indicator.
#[derive(Debug, Clone, Copy, PartialEq, Eq, Structural)]
pub enum IndicatorState {
    Normal,
    Success,
    Warning,
    Danger,
}

/// Minutes right-aligned to a width of two: a space precedes a single
/// digit.
pub open spec fn padded_minutes(m: nat) -> Seq<char> {
    if m < 10 {
        " "@ + dec_str(m)
    } else {
        dec_str(m)
    }
}

/// The rendering of a duration of `secs` whole seconds: hours and minutes
/// as `"<h>h <mm>m"` when at least an hour long, minutes alone as `"<mm>m"`
/// otherwise, the minutes always right-aligned to two columns.
pub open spec fn format_duration_spec(secs: nat) -> Seq<char> {
    let h = secs / 3600;
    let m = (secs / 60) % 60;
    if h > 0 {
        dec_str(h) + "h "@ + padded_minutes(m) + "m"@
    } else {
        padded_minutes(m) + "m"@
    }
}

/// Render a duration of `secs` whole seconds for display.
pub fn format_duration(secs: u64) -> (r: String)
    ensures
        r@ == format_duration_spec(secs as nat),
{
    let h = secs / 3600;
    let m = (secs / 60) % 60;
    let mut r = String::new();
    if h > 0 {
        push_decimal(&mut r, h);
        r.append("h ");
    }
    if m < 10 {
        r.append(" ");
    }
    push_decimal(&mut r, m);
    r.append("m");
    proof {
        assert(r@ =~= format_duration_spec(secs as nat));
    }
    r
}

} // verus!

use crate::text::{decimal_of, push_decimal};
use vstd::prelude::*;
use vstd::string::*;

verus! {

/// How a length of `secs` seconds is shown.
///
/// Under a minute: the seconds, then `s`. Under twenty minutes: the minutes,
/// `min`, the seconds left over, `s`. Under an hour: the minutes, rounded
/// down, then `min`. From an hour on: the hours, `h`, the minutes left over,
/// rounded down, `min`.
pub open spec fn duration_text(secs: nat) -> Seq<char> {
    if secs < 60 {
        decimal_of(secs) + "s"@
    } else if secs < 60 * 20 {
        decimal_of(secs / 60) + "min"@ + decimal_of(secs % 60) + "s"@
    } else if secs < 60 * 60 {
        decimal_of(secs / 60) + "min"@
    } else {
        decimal_of(secs / 3600) + "h"@ + decimal_of(secs % 3600 / 60) + "min"@
    }
}

/// The length of a video, given in seconds, as a short text.
pub fn format_duration(secs: u32) -> (r: String)
    ensures
        r@ == duration_text(secs as nat),
{
    let mut out = String::new();
    if secs < 60 {
        push_decimal(&mut out, secs);
        out.append("s");
    } else if secs < 60 * 20 {
        push_decimal(&mut out, secs / 60);
        out.append("min");
        push_decimal(&mut out, secs % 60);
        out.append("s");
    } else if secs < 60 * 60 {
        push_decimal(&mut out, secs / 60);
        out.append("min");
    } else {
        push_decimal(&mut out, secs / 3600);
        out.append("h");
        push_decimal(&mut out, secs % 3600 / 60);
        out.append("min");
    }
    out
}

} // verus!

//! Side-tone: which level to ask the headset for, and the control report
//! that asks for it.

use vstd::prelude::*;
use crate::report::REPORT_SIZE;
use crate::text::{parse_decimal, parse_unsigned, same_text, trim, trimmed};

verus! {

/// Command byte of the side-tone control report.
pub const SIDETONE_COMMAND: u8 = 0x39;

/// The level for a side-tone intensity in percent: thresholds 30, 60, 80.
pub open spec fn sidetone_level(percent: u8) -> u8 {
    if percent < 30 {
        0
    } else if percent < 60 {
        1
    } else if percent < 80 {
        2
    } else {
        3
    }
}

/// Maps a side-tone intensity in percent to one of the four levels.
pub fn sidetone_bucket(percent: u8) -> (r: u8)
    ensures
        r == sidetone_level(percent),
{
    if percent < 30 {
        0
    } else if percent < 60 {
        1
    } else if percent < 80 {
        2
    } else {
        3
    }
}

/// The level never falls as the intensity rises, and stays within 0..=3.
pub proof fn sidetone_level_monotonic(p: u8, q: u8)
    requires
        p <= q,
    ensures
        sidetone_level(p) <= sidetone_level(q),
        sidetone_level(q) <= 3,
{
}

/// The control report for a side-tone intensity: a zero byte, the command
/// byte, the level, then zeros up to the report size.
pub open spec fn is_sidetone_report(r: Seq<u8>, percent: u8) -> bool {
    &&& r.len() == REPORT_SIZE
    &&& r[0] == 0
    &&& r[1] == SIDETONE_COMMAND
    &&& r[2] == sidetone_level(percent)
    &&& forall|i: int| 3 <= i < REPORT_SIZE ==> r[i] == 0
}

/// Builds the side-tone control report for an intensity in percent.
pub fn sidetone_report(percent: u8) -> (r: Vec<u8>)
    ensures
        is_sidetone_report(r@, percent),
{
    let mut data: Vec<u8> = Vec::new();
    let mut i: usize = 0;
    while i < REPORT_SIZE
        invariant
            i <= REPORT_SIZE,
            data@.len() == i,
            forall|j: int| 0 <= j < i ==> data@[j] == 0,
        decreases REPORT_SIZE - i,
    {
        data.push(0);
        i = i + 1;
    }
    data.set(1, SIDETONE_COMMAND);
    data.set(2, sidetone_bucket(percent));
    data
}

/// Values of the disable setting that mean "yes".
pub open spec fn is_affirmative(v: Seq<char>) -> bool {
    v == "1"@ || v == "yes"@ || v == "true"@ || v == "on"@
}

/// The intensity an already trimmed percentage setting asks for: a
/// number up to 255, capped at 100.
pub open spec fn percent_setting_of(t: Seq<char>) -> Option<u8> {
    match parse_unsigned(t, 255) {
        Some(v) => Some(if v > 100 { 100u8 } else { v as u8 }),
        None => None,
    }
}

/// The side-tone intensity the two settings ask for, if any. A disable
/// setting, when present, decides alone: 0 when it says yes, 100 otherwise.
/// Else a percentage setting, trimmed, is read as `percent_setting_of`.
pub open spec fn sidetone_setting_of(disable: Option<Seq<char>>, percent: Option<Seq<char>>) -> Option<u8> {
    match disable {
        Some(v) => Some(if is_affirmative(v) { 0u8 } else { 100u8 }),
        None => match percent {
            Some(p) => percent_setting_of(trimmed(p)),
            None => None,
        },
    }
}

/// Reads an already trimmed percentage setting.
pub fn percent_setting(t: &str) -> (r: Option<u8>)
    ensures
        r == percent_setting_of(t@),
{
    match parse_decimal(t, 255) {
        Some(v) => Some(if v > 100 { 100u8 } else { v as u8 }),
        None => None,
    }
}

fn affirmative(v: &str) -> (r: bool)
    ensures
        r == is_affirmative(v@),
{
    same_text(v, "1") || same_text(v, "yes") || same_text(v, "true") || same_text(v, "on")
}

/// Decides the side-tone intensity from the disable and percentage
/// settings, each absent or holding its text.
pub fn sidetone_setting(disable: Option<&str>, percent: Option<&str>) -> (r: Option<u8>)
    ensures
        r == sidetone_setting_of(
            match disable {
                Some(v) => Some(v@),
                None => None,
            },
            match percent {
                Some(p) => Some(p@),
                None => None,
            },
        ),
{
    match disable {
        Some(v) => Some(if affirmative(v) { 0u8 } else { 100u8 }),
        None => match percent {
            Some(p) => percent_setting(trim(p)),
            None => None,
        },
    }
}

} // verus!

//! The small rules the roster's cards and rows share: whether a sync needs attention, skill
//! levels in roman numerals, the docked status line, how many tag chips overflow, and member
//! counts with thousands grouped by a thin space.

use vstd::prelude::*;
use crate::text::{decimal, decimal_chars, signed_decimal, signed_decimal_chars, string_from_chars};

verus! {

/// Where a character's or corporation's sync stands.
#[derive(Clone, Copy, Debug, PartialEq, Eq, Structural)]
pub enum Phase {
    BackingOff,
    Done,
    Failed,
    Syncing,
}

/// Whether the last sync needs attention: it failed, or it is backing off after failures.
pub fn is_failing(failure: Option<Phase>) -> (r: bool)
    ensures
        r == (failure == Some(Phase::Failed) || failure == Some(Phase::BackingOff)),
{
    match failure {
        Some(Phase::BackingOff) | Some(Phase::Failed) => true,
        _ => false,
    }
}

/// A skill level as the cards print it: roman numerals from one to five, decimal otherwise.
pub open spec fn spec_roman(level: i64) -> Seq<char> {
    if level == 1 {
        "I"@
    } else if level == 2 {
        "II"@
    } else if level == 3 {
        "III"@
    } else if level == 4 {
        "IV"@
    } else if level == 5 {
        "V"@
    } else {
        signed_decimal(level as int)
    }
}

/// A skill level as the cards print it: roman numerals from one to five, decimal otherwise.
pub fn roman(level: i64) -> (r: String)
    ensures
        r@ == spec_roman(level),
{
    match level {
        1 => "I".to_owned(),
        2 => "II".to_owned(),
        3 => "III".to_owned(),
        4 => "IV".to_owned(),
        5 => "V".to_owned(),
        _ => {
            let digits = signed_decimal_chars(level);
            string_from_chars(&digits)
        },
    }
}

/// The i18n key of the docked status pill: docked, in space, or none when unknown.
pub fn status_label_key(docked: Option<bool>) -> (r: Option<&'static str>)
    ensures
        match docked {
            Some(true) => r matches Some(k) && k@ == "roster.card.docked"@,
            Some(false) => r matches Some(k) && k@ == "roster.card.in_space"@,
            None => r is None,
        },
{
    match docked {
        Some(true) => Some("roster.card.docked"),
        Some(false) => Some("roster.card.in_space"),
        None => None,
    }
}

/// The i18n key of a paused queue's label: the singular form for one queued skill.
pub fn paused_label_key(queued: usize) -> (r: &'static str)
    ensures
        queued == 1 ==> r@ == "roster.card.paused_queued_one"@,
        queued != 1 ==> r@ == "roster.card.paused_queued_other"@,
{
    if queued == 1 {
        "roster.card.paused_queued_one"
    } else {
        "roster.card.paused_queued_other"
    }
}

/// How many tags the compact cards show before the `+N` chip.
pub const CHIP_CAP: usize = 3;

/// How many tags the list rows show before the `+N` chip.
pub const MAX_TAGS: usize = 4;

/// The count on the `+N` chip when `total` tags exceed `cap`, none otherwise.
pub fn overflow_count(total: usize, cap: usize) -> (r: Option<usize>)
    ensures
        total > cap ==> r == Some((total - cap) as usize),
        total <= cap ==> r is None,
{
    if total > cap {
        Some(total - cap)
    } else {
        None
    }
}

/// The thin space (U+2009) that separates groups of three digits.
pub const THIN_SPACE: char = '\u{2009}';

/// The first `k` characters of `s` with a thin space before each character that starts a
/// group of three counted from the end (never before the first).
pub open spec fn grouped_prefix(s: Seq<char>, k: nat) -> Seq<char>
    decreases k,
{
    if k == 0 {
        seq![]
    } else {
        let i = (k - 1) as int;
        let before = grouped_prefix(s, (k - 1) as nat);
        if i > 0 && (s.len() - i) % 3 == 0 {
            before.push(THIN_SPACE).push(s[i])
        } else {
            before.push(s[i])
        }
    }
}

/// `value`'s decimal rendering with a thin space between groups of three digits.
pub open spec fn spec_group_thousands(value: i64) -> Seq<char> {
    let digits = signed_decimal(value as int);
    grouped_prefix(digits, digits.len())
}

/// `value`'s decimal rendering with a thin space (U+2009) between groups of three digits.
pub fn group_thousands(value: i64) -> (r: String)
    ensures
        r@ == spec_group_thousands(value),
{
    let digits = signed_decimal_chars(value);
    let len = digits.len();
    let mut out: Vec<char> = Vec::new();
    let mut i: usize = 0;
    while i < len
        invariant
            len == digits@.len(),
            i <= len,
            out@ == grouped_prefix(digits@, i as nat),
        decreases len - i,
    {
        if i > 0 && (len - i) % 3 == 0 {
            out.push(THIN_SPACE);
        }
        out.push(digits[i]);
        i = i + 1;
    }
    string_from_chars(&out)
}

/// How a corporation's member count reads.
#[derive(Clone, Debug)]
pub enum MemberCount {
    /// Unknown: the placeholder dash.
    Placeholder,
    /// A million or more: shown in millions, with one decimal.
    Millions(i64),
    /// Fewer: the count itself, grouped when it has four digits or more.
    Exact(String),
}

/// How a corporation's member count reads: the placeholder when unknown, millions from a
/// million on, the count with its thousands grouped from a thousand on, the plain count below.
pub fn member_count(members: Option<i64>) -> (r: MemberCount)
    ensures
        match members {
            None => r is Placeholder,
            Some(v) => if v >= 1_000_000 {
                r matches MemberCount::Millions(m) && m == v
            } else if v >= 1_000 {
                r matches MemberCount::Exact(s) && s@ == spec_group_thousands(v)
            } else {
                r matches MemberCount::Exact(s) && s@ == signed_decimal(v as int)
            },
        },
{
    match members {
        None => MemberCount::Placeholder,
        Some(v) => {
            if v >= 1_000_000 {
                MemberCount::Millions(v)
            } else if v >= 1_000 {
                MemberCount::Exact(group_thousands(v))
            } else {
                let digits = signed_decimal_chars(v);
                MemberCount::Exact(string_from_chars(&digits))
            }
        },
    }
}

} // verus!

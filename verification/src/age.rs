//! Human-readable object ages ("4d", "12h", "34m", "5s", "<1s").
use vstd::prelude::*;

use crate::text::{decimal, owned, push_str, push_u64};

verus! {

broadcast use vstd::string::group_string_axioms;

/// The instant that `DateTime::parse_from_rfc3339` reads from `s`, as UTC
/// epoch seconds and the nanoseconds past them (above 999,999,999 during a
/// leap second), or none when the parser refuses `s`.
pub uninterp spec fn rfc3339_instant(s: Seq<char>) -> Option<(int, int)>;

/// Whether `DateTime::from_timestamp(secs, nanos)` gives an instant.
pub uninterp spec fn utc_instant_valid(secs: int, nanos: int) -> bool;

/// `later.signed_duration_since(earlier).num_seconds()` for the instants
/// `DateTime::from_timestamp` makes of the two (seconds, nanoseconds) pairs:
/// the whole seconds from `earlier` to `later`, truncated toward zero.
pub uninterp spec fn seconds_between(
    later_secs: int,
    later_nanos: int,
    earlier_secs: int,
    earlier_nanos: int,
) -> int;

/// `DateTime::parse_from_rfc3339(s)`, taken in UTC as its epoch seconds
/// (`timestamp`) and subsecond nanoseconds (`timestamp_subsec_nanos`).
/// Claims that the result is the parser's reading of `s`, and that the pair
/// round-trips through `DateTime::from_timestamp` (as chrono documents).
#[verifier::external_body]
fn parse_rfc3339(s: &str) -> (r: Option<(i64, u32)>)
    ensures
        match r {
            Some(p) => rfc3339_instant(s@) == Some((p.0 as int, p.1 as int)) && utc_instant_valid(
                p.0 as int,
                p.1 as int,
            ),
            None => rfc3339_instant(s@) is None,
        },
{
    match chrono::DateTime::parse_from_rfc3339(s) {
        Ok(dt) => Some((dt.timestamp(), dt.timestamp_subsec_nanos())),
        Err(_) => None,
    }
}

/// `SystemTime::now().duration_since(UNIX_EPOCH)` as whole seconds and the
/// nanoseconds past them; `None` when the system clock reads earlier than
/// the epoch (the call's error). Nothing is claimed of the reading itself but
/// that its nanoseconds stay below one second, as `Duration::subsec_nanos`
/// documents.
#[verifier::external_body]
fn system_now() -> (r: Option<(u64, u32)>)
    ensures
        r matches Some(p) ==> p.1 < 1_000_000_000,
{
    match std::time::SystemTime::now().duration_since(std::time::UNIX_EPOCH) {
        Ok(d) => Some((d.as_secs(), d.subsec_nanos())),
        Err(_) => None,
    }
}

/// `later.signed_duration_since(earlier).num_seconds()` for the instants that
/// `DateTime::from_timestamp` makes of two (epoch seconds, subsecond
/// nanoseconds) pairs, `None` when it makes no instant of one of them.
/// Claims that the result is the named difference of exactly these
/// arguments, in this order.
#[verifier::external_body]
fn whole_seconds_between(later: (i64, u32), earlier: (i64, u32)) -> (r: Option<i64>)
    ensures
        (r is Some) == (utc_instant_valid(later.0 as int, later.1 as int) && utc_instant_valid(
            earlier.0 as int,
            earlier.1 as int,
        )),
        r matches Some(d) ==> d as int == seconds_between(
            later.0 as int,
            later.1 as int,
            earlier.0 as int,
            earlier.1 as int,
        ),
{
    let a = chrono::DateTime::from_timestamp(later.0, later.1);
    let b = chrono::DateTime::from_timestamp(earlier.0, earlier.1);
    match (a, b) {
        (Some(a), Some(b)) => Some(a.signed_duration_since(b).num_seconds()),
        _ => None,
    }
}

/// The age label for an object created `secs` whole seconds ago: the largest
/// unit (days, hours, minutes, seconds) of which at least one has passed.
pub open spec fn age_label_spec(secs: int) -> Seq<char> {
    if secs >= 86400 {
        decimal((secs / 86400) as nat) + "d"@
    } else if secs >= 3600 {
        decimal((secs / 3600) as nat) + "h"@
    } else if secs >= 60 {
        decimal((secs / 60) as nat) + "m"@
    } else if secs > 0 {
        decimal(secs as nat) + "s"@
    } else {
        "<1s"@
    }
}

/// The age label for an object created `secs` whole seconds ago.
pub fn age_label(secs: i64) -> (r: String)
    ensures
        r@ == age_label_spec(secs as int),
{
    if secs <= 0 {
        return owned("<1s");
    }
    let s = secs as u64;
    let (n, unit) = if s >= 86400 {
        (s / 86400, "d")
    } else if s >= 3600 {
        (s / 3600, "h")
    } else if s >= 60 {
        (s / 60, "m")
    } else {
        (s, "s")
    };
    let mut r = String::new();
    push_u64(&mut r, n);
    push_str(&mut r, unit);
    assert(r@ =~= age_label_spec(secs as int));
    r
}

/// The clock reading as epoch seconds and nanoseconds: none when the clock
/// could not be read, or reads beyond what an `i64` count of seconds holds.
pub open spec fn clock_view(now: Option<(u64, u32)>) -> Option<(int, int)> {
    match now {
        Some(p) => if p.0 <= i64::MAX {
            Some((p.0 as int, p.1 as int))
        } else {
            None
        },
        None => None,
    }
}

/// The age shown for creation timestamp `ts` when the clock reads `now`:
/// "-" without a timestamp; the timestamp itself when it is not RFC 3339, or
/// when no age can be taken because the clock could not be read (or gives
/// no instant); otherwise the age label for the whole seconds from the
/// creation instant to `now`.
pub open spec fn age_at(now: Option<(int, int)>, ts: Option<Seq<char>>) -> Seq<char> {
    match ts {
        None => "-"@,
        Some(t) => match rfc3339_instant(t) {
            None => t,
            Some(c) => match now {
                Some(n) => if utc_instant_valid(n.0, n.1) {
                    age_label_spec(seconds_between(n.0, n.1, c.0, c.1))
                } else {
                    t
                },
                None => t,
            },
        },
    }
}

/// `r` is the age shown for creation timestamp `ts` at some reading of the
/// clock.
pub open spec fn age_ok(ts: Option<Seq<char>>, r: Seq<char>) -> bool {
    exists|now: Option<(int, int)>| r == #[trigger] age_at(now, ts)
}

/// The age shown for creation timestamp `ts` when the clock reads `now`
/// (whole seconds and nanoseconds since the epoch; `None` when the clock
/// could not be read).
pub fn age_from(now: Option<(u64, u32)>, ts: Option<&str>) -> (r: String)
    requires
        now matches Some(p) ==> p.1 < 1_000_000_000,
    ensures
        r@ == age_at(clock_view(now), crate::kinds::opt_str_view(ts)),
{
    match ts {
        None => owned("-"),
        Some(t) => match parse_rfc3339(t) {
            None => owned(t),
            Some(created) => {
                let reading: Option<(i64, u32)> = match now {
                    Some(p) => if p.0 <= i64::MAX as u64 {
                        Some((p.0 as i64, p.1))
                    } else {
                        None
                    },
                    None => None,
                };
                match reading {
                    None => owned(t),
                    Some(n) => match whole_seconds_between(n, created) {
                        Some(secs) => age_label(secs),
                        None => owned(t),
                    },
                }
            },
        },
    }
}

/// Human readable age of an object with creation timestamp `ts`, read
/// against the system clock: "-" when there is none, the timestamp itself
/// when it is not RFC 3339 or the clock cannot be read, otherwise the age
/// label for the whole seconds elapsed from it until now.
pub fn human_age(ts: Option<&str>) -> (r: String)
    ensures
        age_ok(crate::kinds::opt_str_view(ts), r@),
{
    let now = system_now();
    let r = age_from(now, ts);
    assert(r@ == age_at(clock_view(now), crate::kinds::opt_str_view(ts)));
    r
}

/// The letter of an age unit of `u` seconds.
pub open spec fn unit_letter(u: int) -> Seq<char> {
    if u == 86400 {
        "d"@
    } else if u == 3600 {
        "h"@
    } else if u == 60 {
        "m"@
    } else {
        "s"@
    }
}

/// An age label shows the largest unit (second, minute, hour, day) of which
/// at least one whole unit has passed, with the number of whole units
/// passed: for `secs > 0` the label is `n` followed by the unit's letter,
/// where `n >= 1` is `secs` divided by the unit rounded down, and the next
/// larger unit has not yet passed once. No time at all, or a negative one,
/// reads "<1s".
pub proof fn law_age_label_largest_whole_unit(secs: int)
    ensures
        secs <= 0 ==> age_label_spec(secs) == "<1s"@,
        secs > 0 ==> exists|n: nat, u: int|
            #![trigger decimal(n), unit_letter(u)]
            {
                &&& (u == 1 || u == 60 || u == 3600 || u == 86400)
                &&& age_label_spec(secs) == decimal(n) + unit_letter(u)
                &&& 1 <= n
                &&& n * u <= secs < (n + 1) * u
                &&& (u == 1 ==> secs < 60)
                &&& (u == 60 ==> secs < 3600)
                &&& (u == 3600 ==> secs < 86400)
            },
{
    if secs > 0 {
        let u: int = if secs >= 86400 {
            86400
        } else if secs >= 3600 {
            3600
        } else if secs >= 60 {
            60
        } else {
            1
        };
        let n: nat = (secs / u) as nat;
        assert(n * u <= secs < (n + 1) * u && 1 <= n) by (nonlinear_arith)
            requires
                u > 0,
                secs >= u,
                n == secs / u,
        ;
        assert(age_label_spec(secs) == decimal(n) + unit_letter(u));
    }
}

} // verus!

//! ISO-8601 UTC timestamps (`%Y-%m-%dT%H:%M:%SZ`) as the backend stores them.
use vstd::prelude::*;

use crate::text::lex_lt;

verus! {

/// The one rendering the backend uses for instants.
pub open spec fn iso_format() -> Seq<char> {
    "%Y-%m-%dT%H:%M:%SZ"@
}

/// Names what chrono renders, with format `fmt`, for the UTC instant `secs`
/// seconds after the Unix epoch; `None` where chrono cannot represent the
/// instant.
pub uninterp spec fn chrono_utc_format(secs: int, fmt: Seq<char>) -> Option<Seq<char>>;

/// Instants from 1970-01-01T00:00:00Z to 9999-12-31T23:59:59Z: years that
/// chrono renders with four digits and no sign.
pub open spec fn four_digit_year(secs: int) -> bool {
    0 <= secs <= 253402300799
}

/// `s` compares with the rendering of every instant of `four_digit_year`
/// as the instant `secs` compares with it: text order is time order.
pub open spec fn ordered_rendering(secs: int, s: Seq<char>) -> bool {
    forall|other: int|
        #![trigger chrono_utc_format(other, iso_format())]
        four_digit_year(other) ==> (chrono_utc_format(other, iso_format()) matches Some(o) && (
        lex_lt(o, s) <==> other < secs) && (lex_lt(s, o) <==> secs < other))
}

/// `chrono::DateTime::<Utc>::from_timestamp(secs, 0)` followed by
/// `format(fmt).to_string()`. The format must be the backend's ISO format,
/// which chrono accepts (other formats can make `to_string` panic). The
/// calendar arithmetic is named by `chrono_utc_format`, not restated. What
/// chrono documents for instants of `four_digit_year` is stated:
/// `from_timestamp` refuses only seconds outside its ±262143-year range (0
/// nanoseconds is always valid), so such an instant is rendered; and its
/// strftime table renders `%Y` zero-padded to four digits (unsigned for
/// years up to 9999) and `%m`, `%d`, `%H`, `%M`, `%S` zero-padded to two,
/// most significant field first, between fixed separators, so two such
/// renderings compare as text as their instants compare in time.
#[verifier::external_body]
fn format_utc(secs: i64, fmt: &str) -> (r: Option<String>)
    requires
        fmt@ == iso_format(),
    ensures
        match r {
            Some(s) => chrono_utc_format(secs as int, fmt@) == Some(s@),
            None => chrono_utc_format(secs as int, fmt@) is None,
        },
        four_digit_year(secs as int) ==> r is Some && ordered_rendering(secs as int, r.unwrap()@),
{
    match chrono::DateTime::<chrono::Utc>::from_timestamp(secs, 0) {
        Some(t) => Some(t.format(fmt).to_string()),
        None => None,
    }
}

/// `chrono::Utc::now().timestamp()`: the system clock, in whole seconds since
/// the Unix epoch. Which instant it is, is not claimed; only that chrono
/// renders it. `Utc::now` builds its value with `DateTime::from_timestamp`
/// on these seconds (and unwraps it), and `from_timestamp` refuses only
/// out-of-range seconds or an invalid nanosecond, so the same seconds with 0
/// nanoseconds are accepted by `format_utc` too. `Utc::now` panics when the
/// system clock reads before the Unix epoch; no contract here rules that out.
#[verifier::external_body]
fn utc_now_seconds() -> (r: i64)
    ensures
        clock_instant(r as int),
{
    chrono::Utc::now().timestamp()
}

/// What chrono renders for the instant `seconds` after `now`.
pub open spec fn rendered_offset(now: int, seconds: int) -> Option<Seq<char>> {
    chrono_utc_format(now + seconds, iso_format())
}

/// An instant the clock can show: chrono renders it.
pub open spec fn clock_instant(now: int) -> bool {
    chrono_utc_format(now, iso_format()) is Some
}

/// The rendering of the instant `seconds` after `now`, as `iso_at_offset`
/// computes it: `None` when that instant leaves the `i64` range or chrono
/// cannot represent it.
pub open spec fn offset_rendering(now: int, seconds: int) -> Option<Seq<char>> {
    if i64::MIN <= now + seconds <= i64::MAX {
        rendered_offset(now, seconds)
    } else {
        None
    }
}

/// The ISO rendering of the instant `seconds` after `now` (both in Unix
/// seconds); `None` when that instant overflows or chrono cannot represent it.
pub fn iso_at_offset(now: i64, seconds: i64) -> (r: Option<String>)
    ensures
        match r {
            Some(s) => now + seconds <= i64::MAX && now + seconds >= i64::MIN && chrono_utc_format(
                now + seconds,
                iso_format(),
            ) == Some(s@),
            None => now + seconds > i64::MAX || now + seconds < i64::MIN || chrono_utc_format(
                now + seconds,
                iso_format(),
            ) is None,
        },
        four_digit_year(now + seconds) ==> (r matches Some(s) && ordered_rendering(now + seconds, s@)),
{
    match now.checked_add(seconds) {
        Some(t) => format_utc(t, "%Y-%m-%dT%H:%M:%SZ"),
        None => None,
    }
}

/// The current instant, rendered in ISO format. The clock's instant is
/// always one chrono renders, so this always succeeds.
pub fn iso_now() -> (r: Option<String>)
    ensures
        r is Some,
        exists|t: int|
            #[trigger] clock_instant(t) && match r {
                Some(s) => offset_rendering(t, 0) == Some(s@),
                None => offset_rendering(t, 0) is None,
            } && (four_digit_year(t) ==> (r matches Some(s) && ordered_rendering(t, s@))),
{
    let now = utc_now_seconds();
    let r = iso_at_offset(now, 0);
    assert(clock_instant(now as int));
    r
}

/// The instant `seconds` from now, rendered in ISO format: `None` exactly
/// when that instant leaves the `i64` range or chrono cannot represent it.
pub fn iso_after(seconds: i64) -> (r: Option<String>)
    ensures
        exists|t: int|
            #[trigger] clock_instant(t) && match r {
                Some(s) => offset_rendering(t, seconds as int) == Some(s@),
                None => offset_rendering(t, seconds as int) is None,
            } && (four_digit_year(t + seconds) ==> (r matches Some(s) && ordered_rendering(
                t + seconds,
                s@,
            ))),
{
    let now = utc_now_seconds();
    let r = iso_at_offset(now, seconds);
    assert(clock_instant(now as int));
    r
}

/// The instant `seconds` ago, rendered in ISO format: `None` exactly when
/// that instant leaves the `i64` range or chrono cannot represent it.
pub fn iso_before(seconds: i64) -> (r: Option<String>)
    requires
        seconds > i64::MIN,
    ensures
        exists|t: int|
            #[trigger] clock_instant(t) && match r {
                Some(s) => offset_rendering(t, -seconds) == Some(s@),
                None => offset_rendering(t, -seconds) is None,
            } && (four_digit_year(t - seconds) ==> (r matches Some(s) && ordered_rendering(
                t - seconds,
                s@,
            ))),
{
    let now = utc_now_seconds();
    let r = iso_at_offset(now, -seconds);
    assert(clock_instant(now as int));
    r
}


/// Stored timestamps compare as text exactly as their instants compare in
/// time, for instants between 1970 and 9999: a text rendered for `a` comes
/// before one rendered for `b` when, and only when, `a` is earlier. This is
/// what the expiry checks rely on when they compare an expiry with now.
pub proof fn lemma_iso_text_order(a: int, sa: Seq<char>, b: int, sb: Seq<char>)
    requires
        four_digit_year(a),
        four_digit_year(b),
        chrono_utc_format(a, iso_format()) == Some(sa),
        ordered_rendering(b, sb),
    ensures
        lex_lt(sa, sb) <==> a < b,
        lex_lt(sb, sa) <==> b < a,
{
    assert(chrono_utc_format(a, iso_format()) matches Some(o) && (lex_lt(o, sb) <==> a < b) && (
    lex_lt(sb, o) <==> b < a));
}

} // verus!

//! Wall-clock readings and the identifiers minted from them.

use vstd::prelude::*;
use crate::text::dec_digits_spec;
use crate::text::dec_len_spec;
use crate::text::format_u64;
use crate::text::format_u32_pad9;

verus! {

/// Relies on std::time::SystemTime::now and duration_since(UNIX_EPOCH):
/// the current moment as whole seconds and sub-second nanoseconds; the
/// nanosecond part of a Duration is below one billion.  A clock before
/// the epoch reads as zero.
#[verifier::external_body]
fn now_unix() -> (r: (u64, u32))
    ensures
        r.1 < 1000000000,
{
    let d = std::time::SystemTime::now()
        .duration_since(std::time::UNIX_EPOCH)
        .unwrap_or_default();
    (d.as_secs(), d.subsec_nanos())
}

/// Relies on chrono's conversion from SystemTime (which handles a clock
/// before the epoch, where `Utc::now` would panic) and on
/// DateTime::timestamp: the current moment as Unix seconds, negative
/// before the epoch.  Nothing is promised of the value.
#[verifier::external_body]
pub(crate) fn utc_now_seconds() -> i64 {
    chrono::DateTime::<chrono::Utc>::from(std::time::SystemTime::now()).timestamp()
}

/// Relies on chrono's conversion from SystemTime (which handles a clock
/// before the epoch, where `Local::now` would panic) and on its
/// `%Y-%m-%d` formatting: the machine's current date as text.  The
/// value depends on the clock and the time zone, so nothing is promised
/// of it.
#[verifier::external_body]
pub(crate) fn local_today_string() -> String {
    chrono::DateTime::<chrono::Local>::from(std::time::SystemTime::now())
        .format("%Y-%m-%d")
        .to_string()
}

/// The identifier minted from a clock reading: the seconds in decimal,
/// then the nanoseconds zero-padded to nine digits.
pub fn format_id(secs: u64, nanos: u32) -> (r: String)
    requires
        nanos < 1000000000,
    ensures
        r@ == dec_digits_spec(secs as int) + Seq::new(
            (9 - dec_len_spec(nanos as int)) as nat,
            |k: int| '0',
        ) + dec_digits_spec(nanos as int),
        r@.len() >= 10,
        forall|k: int| 0 <= k < r@.len() ==> '0' <= #[trigger] r@[k] <= '9',
{
    let mut s = format_u64(secs);
    let pad = format_u32_pad9(nanos);
    proof {
        crate::text::lemma_dec_digits_len(secs as int);
        crate::text::lemma_dec_digits_are_digits(secs as int);
        crate::text::lemma_dec_digits_are_digits(nanos as int);
    }
    s.append(pad.as_str());
    proof {
        assert(s@ =~= dec_digits_spec(secs as int) + Seq::new(
            (9 - dec_len_spec(nanos as int)) as nat,
            |k: int| '0',
        ) + dec_digits_spec(nanos as int));
    }
    s
}

/// Mint an identifier unique on one machine: the current time down to
/// the nanosecond, as digits.
pub fn make_id() -> (r: String)
    ensures
        r@.len() >= 10,
        forall|k: int| 0 <= k < r@.len() ==> '0' <= #[trigger] r@[k] <= '9',
{
    let (secs, nanos) = now_unix();
    format_id(secs, nanos)
}

} // verus!

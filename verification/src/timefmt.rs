//! Timestamp formatting for the status line and the table rows.
//!
//! Instants are Unix seconds. Formatting itself is done by chrono
//! behind trusted wrappers: the UTC rendering of an instant is a pure
//! function of the timestamp and gets the name `time_label_of`; the
//! local rendering additionally depends on the machine's time zone, so
//! its wrapper promises only that the result is the UTC rendering of
//! the instant shifted by some bounded offset.

use vstd::prelude::*;

verus! {

/// The `YYYY-MM-DD HH:MM:SS` rendering of an instant given as Unix
/// seconds, in UTC.
pub uninterp spec fn time_label_of(t: int) -> Seq<char>;

/// The latest instant the formatter accepts: the last second of year
/// 9999, UTC.
pub const MAX_FORMAT_SECS: i64 = 253402300799;

/// Holds when `r` is the UTC rendering of the instant `t` shifted by
/// some time-zone offset, which is always strictly within one day.
pub open spec fn local_rendering_of(t: int, r: Seq<char>) -> bool {
    exists|off: int| -86400 < off < 86400 && r == #[trigger] time_label_of(t + off)
}

/// Relies on chrono's `DateTime::<Utc>::from_timestamp` (defined for
/// this range) and `format("%Y-%m-%d %H:%M:%S")`: the rendering
/// depends on the timestamp alone.
#[verifier::external_body]
fn format_utc_secs(t: i64) -> (r: String)
    requires
        0 <= t <= MAX_FORMAT_SECS,
    ensures
        r@ == time_label_of(t as int),
{
    let dt = chrono::DateTime::<chrono::Utc>::from_timestamp(t, 0).unwrap();
    dt.format("%Y-%m-%d %H:%M:%S").to_string()
}

/// Relies on chrono's `DateTime::with_timezone` into `chrono::Local`
/// and `format("%Y-%m-%d %H:%M:%S")`: the local rendering of an
/// instant equals the UTC rendering of the instant shifted by the
/// zone's offset, which chrono keeps strictly within one day.
#[verifier::external_body]
fn format_local_secs(t: i64) -> (r: String)
    requires
        0 <= t <= MAX_FORMAT_SECS,
    ensures
        local_rendering_of(t as int, r@),
{
    let dt = chrono::DateTime::<chrono::Utc>::from_timestamp(t, 0).unwrap();
    dt.with_timezone(&chrono::Local).format("%Y-%m-%d %H:%M:%S").to_string()
}

/// Relies on chrono's `Utc::now`: seconds since the Unix epoch at the
/// moment of the call.
#[verifier::external_body]
pub(crate) fn now_unix_secs() -> (t: i64) {
    chrono::Utc::now().timestamp()
}

/// The UTC rendering of an instant; empty for an instant the formatter
/// does not accept.
pub fn utc_time_label(t: i64) -> (r: String)
    ensures
        0 <= t <= MAX_FORMAT_SECS ==> r@ == time_label_of(t as int),
        !(0 <= t <= MAX_FORMAT_SECS) ==> r@ == Seq::<char>::empty(),
{
    if 0 <= t && t <= MAX_FORMAT_SECS {
        format_utc_secs(t)
    } else {
        String::new()
    }
}

/// The local-time rendering of an instant; empty for an instant the
/// formatter does not accept.
pub fn local_time_label(t: i64) -> (r: String)
    ensures
        0 <= t <= MAX_FORMAT_SECS ==> local_rendering_of(t as int, r@),
        !(0 <= t <= MAX_FORMAT_SECS) ==> r@ == Seq::<char>::empty(),
{
    if 0 <= t && t <= MAX_FORMAT_SECS {
        format_local_secs(t)
    } else {
        String::new()
    }
}

} // verus!

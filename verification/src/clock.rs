//! The shared batch timestamp, read once per trigger from the system clock.
//!
//! The rendered form is `YYYY-MM-DD_HH-MM-SS.mmm` in UTC: lexicographically
//! sortable, millisecond precision, and made only of digits and the fixed
//! separators `-`, `_` and `.` (a year outside 0–9999 carries a leading
//! sign). The clock is not a function of anything the library can see, so
//! nothing is assumed of the moment read — only the shape of the rendered
//! text is stated. A clock that cannot be read (before the Unix epoch, or
//! past the representable range) yields `None` rather than a panic: no
//! verified function of the library panics inside the hook callback.

use vstd::prelude::*;
use crate::filename::{digit, fname_char};

verus! {

/// The shape every rendered timestamp has, whatever moment the clock gave:
/// at least 23 characters; a year of digits (after an optional leading
/// sign, which appears only for years outside 0–9999); then the 19-character
/// suffix `-MM-DD_HH-MM-SS.mmm` with digits everywhere but its six fixed
/// separators.
pub open spec fn ts_shape(s: Seq<char>) -> bool {
    let n = s.len() as int;
    &&& s.len() >= 23
    &&& (digit(s[0]) || s[0] == '+' || s[0] == '-')
    &&& forall|i: int| 1 <= i < n - 19 ==> digit(#[trigger] s[i])
    &&& s[n - 19] == '-'
    &&& s[n - 16] == '-'
    &&& s[n - 13] == '_'
    &&& s[n - 10] == '-'
    &&& s[n - 7] == '-'
    &&& s[n - 4] == '.'
    &&& forall|i: int|
        n - 19 <= i < n && i != n - 19 && i != n - 16 && i != n - 13 && i != n - 10 && i != n - 7
            && i != n - 4 ==> digit(#[trigger] s[i])
}

/// One moment read from the clock, carried opaquely between the read and
/// the rendering. (It holds a chrono UTC datetime; that type's own
/// declaration is generic over an outside trait, which the verifier
/// refuses, so the value is boxed in this opaque struct instead.)
#[verifier::external_body]
pub struct UtcMoment {
    inner: chrono::DateTime<chrono::Utc>,
}

#[verifier::external_type_specification]
#[verifier::external_body]
pub struct ExSystemTime(std::time::SystemTime);

/// Relies on std's SystemTime::now: reads the wall clock. It never panics,
/// and nothing is assumed of the value.
#[verifier::external_body]
fn system_now() -> (t: std::time::SystemTime) {
    std::time::SystemTime::now()
}

/// Relies on std's SystemTime::duration_since, measured against std's
/// UNIX_EPOCH: `Some` exactly when the clock reads at or after the epoch
/// (the error case means an earlier reading), converted to whole seconds
/// and the sub-second nanoseconds, which std's Duration::subsec_nanos
/// documents as below one billion. It never panics.
#[verifier::external_body]
fn unix_time_of(t: &std::time::SystemTime) -> (r: Option<(u64, u32)>)
    ensures
        r matches Some(p) ==> p.1 < 1000000000,
{
    match t.duration_since(std::time::UNIX_EPOCH) {
        Ok(d) => Some((d.as_secs(), d.subsec_nanos())),
        Err(_) => None,
    }
}

/// Relies on chrono's DateTime::from_timestamp: `Some` exactly when the
/// seconds-and-nanoseconds pair lies in chrono's representable range (it
/// returns `None` otherwise and never panics). Nothing is assumed of the
/// moment's value.
#[verifier::external_body]
fn moment_from_unix(secs: i64, nanos: u32) -> (r: Option<UtcMoment>) {
    chrono::DateTime::from_timestamp(secs, nanos).map(|inner| UtcMoment { inner })
}

/// Relies on chrono's DateTime::format with the fixed strftime pattern
/// `%Y-%m-%d_%H-%M-%S%.3f`, rendered by chrono's formatter: the year as
/// zero-padded digits of width at least four, with a sign only for years
/// outside 0–9999 and only in front; every other field as fixed-width
/// zero-padded digits; the literal separators of the pattern; and the
/// millisecond field as `.` plus exactly three digits (the decimal point
/// is `.` whatever the machine's locale). That is `ts_shape`, of every
/// moment whatever its value.
#[verifier::external_body]
fn render_timestamp(t: &UtcMoment) -> (r: String)
    ensures
        ts_shape(r@),
{
    t.inner.format("%Y-%m-%d_%H-%M-%S%.3f").to_string()
}

/// Reads the clock once and renders it as the shared timestamp of one
/// capture batch: `YYYY-MM-DD_HH-MM-SS.mmm` in UTC. The moment depends on
/// the time of the call, so no two calls are promised to agree and nothing
/// is promised of the digits; every returned timestamp has the sortable
/// shape `ts_shape`. `None` means the clock could not be read as a moment
/// (a reading before the Unix epoch or past the representable range); the
/// caller reports that as a batch failure instead of panicking.
pub fn current_timestamp() -> (r: Option<String>)
    ensures
        r matches Some(s) ==> ts_shape(s@),
{
    let t = system_now();
    match unix_time_of(&t) {
        None => None,
        Some(p) => {
            let secs: u64 = p.0;
            let nanos: u32 = p.1;
            if secs > i64::MAX as u64 {
                None
            } else {
                match moment_from_unix(secs as i64, nanos) {
                    None => None,
                    Some(m) => Some(render_timestamp(&m)),
                }
            }
        },
    }
}

/// No character of a well-shaped timestamp is a path separator, and when
/// the year carries no sign (any year 0–9999, so any moment the wall clock
/// will reach for millennia) every character is filename-safe.
pub proof fn lemma_ts_shape_chars(s: Seq<char>)
    requires
        ts_shape(s),
    ensures
        forall|i: int| 0 <= i < s.len() ==> (#[trigger] s[i]) != '/' && s[i] != '\\',
        digit(s[0]) ==> forall|i: int| 0 <= i < s.len() ==> fname_char(#[trigger] s[i]),
{
    let n = s.len() as int;
    assert forall|i: int| 0 <= i < n implies (#[trigger] s[i]) != '/' && s[i] != '\\' by {
        if 1 <= i < n - 19 {
            assert(digit(s[i]));
        }
    }
    if digit(s[0]) {
        assert forall|i: int| 0 <= i < n implies fname_char(#[trigger] s[i]) by {
            if 1 <= i < n - 19 {
                assert(digit(s[i]));
            }
        }
    }
}

} // verus!

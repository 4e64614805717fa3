use vstd::prelude::*;

verus! {

/// Relies on chrono's `Utc::now` and `timestamp_millis`: the wall-clock time
/// in milliseconds since the Unix epoch. Nothing is assumed of the value: the
/// system clock can be set to anything, including before the epoch.
#[verifier::external_body]
fn now_millis() -> i64 {
    chrono::Utc::now().timestamp_millis()
}

/// The current wall-clock time in milliseconds since the Unix epoch, clamped
/// to be non-negative.
pub fn current_time_ms() -> (r: i64)
    ensures
        r >= 0,
{
    let t = now_millis();
    if t < 0 {
        0
    } else {
        t
    }
}

/// The RFC 3339 rendering, with UTC offset, of a moment given in
/// milliseconds since the Unix epoch: a function of the milliseconds alone.
pub uninterp spec fn rfc3339_of(ms: int) -> Seq<char>;

/// Relies on chrono's `DateTime::from_timestamp_millis` and `to_rfc3339`:
/// the RFC 3339 rendering depends on the milliseconds alone. A value no
/// calendar reaches renders as the epoch.
#[verifier::external_body]
pub(crate) fn millis_to_rfc3339(ms: i64) -> (r: String)
    ensures
        r@ == rfc3339_of(ms as int),
{
    match chrono::DateTime::from_timestamp_millis(ms) {
        Some(dt) => dt.to_rfc3339(),
        None => chrono::DateTime::from_timestamp_millis(0).unwrap().to_rfc3339(),
    }
}

} // verus!

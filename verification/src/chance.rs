//! Values that differ from call to call: random bytes, fresh identifiers and
//! the clock.

use vstd::prelude::*;
use rand::Rng;

verus! {

/// Fills a buffer of `n` bytes with `Rng::fill` on `rand`'s thread-local
/// generator, which fails only where the operating system gives it no
/// randomness. Nothing is known of the bytes but how many there are.
#[verifier::external_body]
pub(crate) fn random_bytes(n: usize) -> (r: Vec<u8>)
    ensures
        r@.len() == n,
{
    let mut buf = vec![0u8; n];
    rand::thread_rng().fill(&mut buf[..]);
    buf
}

/// Formats `Uuid::new_v4` of `uuid` in its hyphenated lower-case form, which
/// is 36 characters long. Nothing else is known of it. The call fails only
/// where the operating system gives no randomness.
#[verifier::external_body]
pub(crate) fn fresh_uuid() -> (r: String)
    ensures
        r@.len() == 36,
{
    uuid::Uuid::new_v4().to_string()
}

/// A point in time of std's system clock, opaque to the verifier.
#[verifier::external_type_specification]
#[verifier::external_body]
pub struct ExSystemTime(std::time::SystemTime);

/// `SystemTime::now` of std reads the clock. Nothing is known of the reading.
pub assume_specification[ std::time::SystemTime::now ]() -> (t: std::time::SystemTime)
;

/// `Duration::as_secs` of std gives the whole seconds of a duration. Nothing
/// is stated of them.
pub assume_specification[ core::time::Duration::as_secs ](d: &core::time::Duration) -> (s: u64)
;

/// Calls `SystemTime::duration_since` with the Unix epoch: the time from the
/// epoch to `t`, or nothing where `t` lies before the epoch.
#[verifier::external_body]
pub(crate) fn since_epoch(t: &std::time::SystemTime) -> (r: Option<core::time::Duration>) {
    t.duration_since(std::time::SystemTime::UNIX_EPOCH).ok()
}

/// `Duration::subsec_nanos` of std gives the part of a duration below a
/// second, in nanoseconds. Nothing is stated of them.
pub assume_specification[ core::time::Duration::subsec_nanos ](d: &core::time::Duration) -> (n: u32)
;

/// The RFC 3339 text of the UTC time that lies `secs` seconds and `nanos`
/// nanoseconds after the Unix epoch, as `chrono` writes it; nothing where
/// `chrono` has no such time.
pub uninterp spec fn rfc3339_of(secs: i64, nanos: u32) -> Option<Seq<char>>;

/// Calls `DateTime::from_timestamp` of `chrono` and writes the time, if
/// there is one, with `to_rfc3339`. The contract names the outcome.
#[verifier::external_body]
pub(crate) fn format_rfc3339(secs: i64, nanos: u32) -> (r: Option<String>)
    ensures
        r.deep_view() == rfc3339_of(secs, nanos),
{
    chrono::DateTime::from_timestamp(secs, nanos).map(|t| t.to_rfc3339())
}

/// The timestamp for a clock reading: the seconds as a signed number,
/// wrapping, and 0 where there is no reading.
pub open spec fn timestamp_of(elapsed: Option<u64>) -> i64 {
    match elapsed {
        Some(s) => s as i64,
        None => 0,
    }
}

/// The timestamp for a clock reading.
pub fn seconds_to_timestamp(elapsed: Option<u64>) -> (t: i64)
    ensures
        t == timestamp_of(elapsed),
{
    match elapsed {
        Some(s) => #[verifier::truncate] (s as i64),
        None => 0,
    }
}

/// The current time in seconds since the Unix epoch; 0 where the clock stands
/// before the epoch.
pub fn unix_time() -> (t: i64) {
    let now = std::time::SystemTime::now();
    let elapsed = match since_epoch(&now) {
        Some(d) => Some(d.as_secs()),
        None => None,
    };
    seconds_to_timestamp(elapsed)
}

/// The text of the Unix epoch itself.
pub open spec fn epoch_text() -> Seq<char> {
    "1970-01-01T00:00:00+00:00"@
}

/// The RFC 3339 text for a clock reading of seconds and nanoseconds since
/// the Unix epoch. Where there is no reading, or no such time can be written,
/// it is the text of the epoch.
pub open spec fn timestamp_text(reading: Option<(u64, u32)>) -> Seq<char> {
    match reading {
        Some((secs, nanos)) => if secs <= i64::MAX {
            match rfc3339_of(secs as i64, nanos) {
                Some(t) => t,
                None => epoch_text(),
            }
        } else {
            epoch_text()
        },
        None => epoch_text(),
    }
}

/// The text is the timestamp of some clock reading.
pub open spec fn is_timestamp(text: Seq<char>) -> bool {
    exists|reading: Option<(u64, u32)>| text == #[trigger] timestamp_text(reading)
}

/// The RFC 3339 text for a clock reading.
pub fn timestamp_for(reading: Option<(u64, u32)>) -> (r: String)
    ensures
        r@ == timestamp_text(reading),
{
    let written = match reading {
        Some((secs, nanos)) => {
            if secs <= i64::MAX as u64 {
                format_rfc3339(secs as i64, nanos)
            } else {
                None
            }
        },
        None => None,
    };
    match written {
        Some(t) => t,
        None => "1970-01-01T00:00:00+00:00".to_string(),
    }
}

/// The current time as an RFC 3339 text in UTC; the text of the Unix epoch
/// where the clock stands before it.
pub fn timestamp_now() -> (r: String)
    ensures
        is_timestamp(r@),
{
    let now = std::time::SystemTime::now();
    let reading = match since_epoch(&now) {
        Some(d) => Some((d.as_secs(), d.subsec_nanos())),
        None => None,
    };
    let r = timestamp_for(reading);
    assert(r@ == timestamp_text(reading));
    r
}

} // verus!

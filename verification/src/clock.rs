use crate::status_msg::is_time_of_day;
use std::fmt::Write;
use vstd::prelude::*;

verus! {

/// Reads the system clock through `web_time::SystemTime::UNIX_EPOCH.elapsed()`:
/// the whole seconds since the Unix epoch and the nanoseconds of the second
/// that is running, which `Duration::subsec_nanos` keeps below one billion.
/// `None` where the clock stands before the epoch. What the clock reads is not
/// stated.
#[verifier::external_body]
pub(crate) fn since_unix_epoch() -> (r: Option<(u64, u32)>)
    ensures
        r matches Some(elapsed) ==> elapsed.1 < 1_000_000_000,
{
    match web_time::SystemTime::UNIX_EPOCH.elapsed() {
        Ok(elapsed) => Some((elapsed.as_secs(), elapsed.subsec_nanos())),
        Err(_) => None,
    }
}

/// The time of day, as `%H:%M:%S`, that the machine's time zone gives to the
/// instant `secs` seconds after the Unix epoch: `chrono::DateTime::from_timestamp`,
/// moved to `chrono::Local` and formatted. `None` where chrono cannot hold the
/// instant. Which time it is depends on the time zone and is not stated; its
/// shape is, since chrono writes hour, minute and second with two digits each.
#[verifier::external_body]
pub(crate) fn local_time_of_day(secs: i64) -> (r: Option<String>)
    ensures
        r matches Some(text) ==> is_time_of_day(text@),
{
    let utc = chrono::DateTime::from_timestamp(secs, 0)?;
    let mut text = String::new();
    write!(text, "{}", utc.with_timezone(&chrono::Local).format("%H:%M:%S")).ok()?;
    Some(text)
}

} // verus!

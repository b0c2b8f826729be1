//! The wall clock, for stamping what the check says about itself.

use vstd::prelude::*;

verus! {

/// An instant in UTC: whole seconds since 1970-01-01 00:00:00, and the
/// nanoseconds into the second.
#[derive(Debug, Clone, Copy, PartialEq, Eq, Structural)]
pub struct UtcTime {
    pub seconds: i64,
    pub nanos: u32,
}

/// The first second after the year 9999, the last that RFC 2822 can name.
pub const RFC2822_END: i64 = 253402300800;

/// The number of nanoseconds in a second.
pub const NANOS_PER_SECOND: u32 = 1000000000;

/// The RFC 2822 date and time, such as `Tue, 1 Jul 2003 10:52:37 +0000`, of
/// the instant in UTC that lies `seconds` and `nanos` after the epoch.
pub uninterp spec fn rfc2822_text(seconds: int, nanos: int) -> Seq<char>;

/// The instant lies in the years 1970 to 9999 and on no leap second.
pub open spec fn rfc2822_writable(time: UtcTime) -> bool {
    0 <= time.seconds < RFC2822_END && time.nanos < NANOS_PER_SECOND
}

/// Calls `chrono::DateTime::to_rfc2822` on the instant. Trusted: the text is
/// a matter of the instant alone. The instants that the method refuses,
/// those outside the years 0 to 9999, are kept away from it.
#[verifier::external_body]
fn write_rfc2822(time: UtcTime) -> (text: String)
    requires
        rfc2822_writable(time),
    ensures
        text@ == rfc2822_text(time.seconds as int, time.nanos as int),
{
    chrono::DateTime::from_timestamp(time.seconds, time.nanos).unwrap_or_default().to_rfc2822()
}

/// The clock in UTC.
pub struct Chrono;

impl Chrono {
    /// Reads the system's clock and has `chrono` turn it into an instant in
    /// UTC, which it also does for a clock that is set before 1970. Trusted,
    /// and nothing is promised of the instant: it is whatever the clock
    /// says.
    #[verifier::external_body]
    pub fn get_utc_time() -> (now: UtcTime) {
        let now = chrono::DateTime::<chrono::Utc>::from(std::time::SystemTime::now());
        UtcTime { seconds: now.timestamp(), nanos: now.timestamp_subsec_nanos() }
    }

    /// Writes an instant as RFC 2822 date and time, or nothing where the
    /// format has no way to write it.
    pub fn to_rfc2822(time: UtcTime) -> (text: Option<String>)
        ensures
            match text {
                Some(t) => rfc2822_writable(time) && t@ == rfc2822_text(
                    time.seconds as int,
                    time.nanos as int,
                ),
                None => !rfc2822_writable(time),
            },
    {
        if 0 <= time.seconds && time.seconds < RFC2822_END && time.nanos < NANOS_PER_SECOND {
            Some(write_rfc2822(time))
        } else {
            None
        }
    }

    /// The current time in UTC as RFC 2822 date and time; nothing where the
    /// clock is set to an instant that the format cannot write.
    pub fn get_utc_timestamp_as_rfc2822() -> (text: Option<String>)
        ensures
            text is Some ==> exists|time: UtcTime|
                rfc2822_writable(time) && text->0@ == #[trigger] rfc2822_text(
                    time.seconds as int,
                    time.nanos as int,
                ),
    {
        Chrono::to_rfc2822(Chrono::get_utc_time())
    }
}

} // verus!

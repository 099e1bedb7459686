//! Absolute UTC instants, held as seconds and nanoseconds since the Unix epoch.
use vstd::prelude::*;

verus! {

/// Nanoseconds in one second.
pub const NANOS_PER_SEC: u32 = 1_000_000_000;

/// Seconds in one day.
pub const SECS_PER_DAY: u64 = 86_400;

/// Earliest second that chrono can represent: -262143-01-01T00:00:00Z.
pub const MIN_SECS: i64 = -8_334_601_228_800;

/// Latest second that chrono can represent: +262142-12-31T23:59:59Z.
pub const MAX_SECS: i64 = 8_210_266_876_799;

/// Text that chrono's `Display` gives for the UTC instant lying `t`
/// nanoseconds after the Unix epoch.
pub uninterp spec fn utc_text(t: int) -> Seq<char>;

/// An absolute UTC instant: whole seconds since the Unix epoch and the
/// nanoseconds past that second, within the range chrono can represent.
#[derive(Clone, Copy, Debug)]
pub struct Instant {
    secs: i64,
    nanos: u32,
}

/// Whether `secs` and `nanos` name an instant that chrono can represent.
pub open spec fn valid_parts(secs: int, nanos: int) -> bool {
    MIN_SECS <= secs <= MAX_SECS && 0 <= nanos < NANOS_PER_SEC
}

impl View for Instant {
    /// Nanoseconds since the Unix epoch (negative before it).
    type V = int;

    closed spec fn view(&self) -> int {
        self.secs * NANOS_PER_SEC + self.nanos
    }
}

impl Instant {
    #[verifier::type_invariant]
    spec fn inv(&self) -> bool {
        valid_parts(self.secs as int, self.nanos as int)
    }

    /// Seconds since the Unix epoch.
    pub closed spec fn spec_secs(&self) -> int {
        self.secs as int
    }

    /// Nanoseconds past the second.
    pub closed spec fn spec_nanos(&self) -> int {
        self.nanos as int
    }

    /// The instant `secs` seconds and `nanos` nanoseconds after the epoch, or
    /// `None` where chrono cannot represent it or `nanos` is a second or more.
    pub fn from_timestamp(secs: i64, nanos: u32) -> (r: Option<Instant>)
        ensures
            r is Some <==> valid_parts(secs as int, nanos as int),
            r matches Some(t) ==> t.spec_secs() == secs && t.spec_nanos() == nanos
                && t@ == secs * NANOS_PER_SEC + nanos,
    {
        if MIN_SECS <= secs && secs <= MAX_SECS && nanos < NANOS_PER_SEC {
            Some(Instant { secs, nanos })
        } else {
            None
        }
    }

    /// Seconds since the Unix epoch.
    pub fn timestamp(&self) -> (r: i64)
        ensures
            r == self.spec_secs(),
    {
        self.secs
    }

    /// Nanoseconds past the second.
    pub fn subsec_nanos(&self) -> (r: u32)
        ensures
            r == self.spec_nanos(),
    {
        self.nanos
    }

    /// Whether this instant falls strictly before `now` plus `window_secs`
    /// seconds.
    pub fn is_before_window(&self, now: &Instant, window_secs: u64) -> (r: bool)
        ensures
            r == (self@ < now@ + window_secs * NANOS_PER_SEC),
    {
        let end: i128 = self.secs as i128 * 1_000_000_000i128 + self.nanos as i128;
        let limit: i128 = (now.secs as i128 + window_secs as i128) * 1_000_000_000i128
            + now.nanos as i128;
        end < limit
    }

    /// The text chrono gives for this instant, such as `2024-01-06 00:00:00 UTC`.
    pub fn to_utc_text(&self) -> (r: String)
        ensures
            r@ == utc_text(self@),
    {
        proof {
            use_type_invariant(self);
        }
        match format_utc(self.secs, self.nanos) {
            Some(s) => s,
            None => {
                proof {
                    assert(false);
                }
                String::new()
            }
        }
    }
}

/// Relies on chrono's `DateTime::<Utc>::from_timestamp`, which returns `Some`
/// for every second in chrono's range with sub-second nanoseconds, and on the
/// `Display` of `DateTime<Utc>`, whose text depends on the instant alone.
#[verifier::external_body]
fn format_utc(secs: i64, nanos: u32) -> (r: Option<String>)
    requires
        nanos < NANOS_PER_SEC,
    ensures
        r matches Some(s) ==> s@ == utc_text(secs * NANOS_PER_SEC + nanos),
        MIN_SECS <= secs <= MAX_SECS ==> r is Some,
{
    match chrono::DateTime::<chrono::Utc>::from_timestamp(secs, nanos) {
        Some(d) => Some(d.to_string()),
        None => None,
    }
}

} // verus!

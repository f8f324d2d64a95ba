use std::time::SystemTime;
use vstd::prelude::*;

verus! {

#[verifier::external_type_specification]
#[verifier::external_body]
pub struct ExSystemTime(SystemTime);

/// How far the clock is past an epoch, as the clock reports it.
#[derive(Debug, Clone, Copy, PartialEq, Eq)]
pub enum ElapsedTime {
    /// The start of the epoch can't be represented as a clock value.
    EpochUnrepresentable,
    /// The clock reads a time before the start of the epoch.
    BeforeEpoch,
    /// The clock reads this many whole milliseconds past the start of the epoch.
    Millis(u128),
}

/// Calls `SystemTime::now`. Nothing is stated of the result: it is whatever the system clock
/// reads.
#[verifier::external_body]
pub(crate) fn system_time_now() -> SystemTime {
    SystemTime::now()
}

/// Calls `SystemTime::checked_add` on `UNIX_EPOCH` with `millis` milliseconds. Whether the sum
/// can be represented depends on the platform, so which inputs give `None` is not stated; a
/// time that comes back is `UNIX_EPOCH + millis` milliseconds, and `None` comes back only where
/// the clock type holds no value that many whole milliseconds after the Unix epoch, as
/// `checked_add` documents (`None` where the sum is outside the bounds of the type, whose values
/// between the Unix epoch and any value it holds it also holds).
#[verifier::external_body]
pub(crate) fn unix_epoch_plus_millis(millis: u64) -> (r: Option<SystemTime>)
    ensures
        r matches Some(t) ==> spec_millis_since_unix_epoch(t) == Some(millis as u128),
        r is None ==> unrepresentable_millis(millis),
{
    SystemTime::UNIX_EPOCH.checked_add(std::time::Duration::from_millis(millis))
}

/// What `SystemTime::duration_since(UNIX_EPOCH)` gives for a clock value, in whole
/// milliseconds: `None` where the value precedes the Unix epoch. It depends on the value alone.
pub uninterp spec fn spec_millis_since_unix_epoch(time: SystemTime) -> Option<u128>;

/// Calls `SystemTime::duration_since(UNIX_EPOCH)` and gives the duration in whole
/// milliseconds, or `None` where `time` precedes the Unix epoch. The result is named by
/// [`spec_millis_since_unix_epoch`]; nothing more is stated of it, as clock values are opaque.
#[verifier::external_body]
pub(crate) fn millis_since_unix_epoch(time: &SystemTime) -> (r: Option<u128>)
    ensures
        r == spec_millis_since_unix_epoch(*time),
{
    match time.duration_since(SystemTime::UNIX_EPOCH) {
        Ok(duration) => Some(duration.as_millis()),
        Err(_) => None,
    }
}

/// Whether the clock type holds no value `millis` whole milliseconds after the Unix epoch.
pub open spec fn unrepresentable_millis(millis: u64) -> bool {
    forall|t: SystemTime| #[trigger] spec_millis_since_unix_epoch(t) != Some(millis as u128)
}

/// The reading that the clock value `now` gives against an epoch that starts `epoch`
/// milliseconds after the Unix epoch.
pub open spec fn clock_reading(epoch: u64, now: SystemTime) -> ElapsedTime {
    elapsed_from_unix_millis(epoch, spec_millis_since_unix_epoch(now))
}

/// Whether `elapsed` is a reading that the system clock can give against an epoch that starts
/// `epoch` milliseconds after the Unix epoch: the reading of some clock value, or
/// `EpochUnrepresentable` where the clock type holds no value at the start of the epoch.
pub open spec fn real_clock_reading(epoch: u64, elapsed: ElapsedTime) -> bool {
    ||| (elapsed is EpochUnrepresentable && unrepresentable_millis(epoch))
    ||| exists|now: SystemTime| elapsed == #[trigger] clock_reading(epoch, now)
}

/// The reading of a clock value against an epoch that starts `epoch` milliseconds after the
/// Unix epoch, given the clock value's whole milliseconds since the Unix epoch (`None` before
/// it). The start of the epoch has no part below a millisecond, so whole milliseconds decide.
pub open spec fn elapsed_from_unix_millis(epoch: u64, now_millis: Option<u128>) -> ElapsedTime {
    match now_millis {
        None => ElapsedTime::BeforeEpoch,
        Some(m) => if m < epoch {
            ElapsedTime::BeforeEpoch
        } else {
            ElapsedTime::Millis((m - epoch) as u128)
        },
    }
}

} // verus!

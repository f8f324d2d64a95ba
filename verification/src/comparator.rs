use std::time::SystemTime;
use vstd::prelude::*;
use vstd::std_specs::cmp::{PartialEqSpec, PartialEqSpecImpl, PartialOrdSpec, PartialOrdSpecImpl};

use crate::clock::{millis_since_unix_epoch, spec_millis_since_unix_epoch};
use crate::error::Error;
use crate::layout::{Epoch, Layout};
use crate::snowflake::{compare_u64, compare_u64_exec, unix_millis, Snowflake};

verus! {

/// A timestamp, in milliseconds since the Unix epoch, that can be compared with snowflakes.
///
/// Snowflakes of any layout and epoch compare with a comparator by their timestamps alone.
/// Unlike a snowflake, a comparator is not unique, so it can't stand where an ID is expected.
#[derive(Debug, Clone, Copy, Ord, Hash)]
pub struct SnowflakeComparator {
    timestamp: u64,
}

impl View for SnowflakeComparator {
    type V = u64;

    /// The timestamp in milliseconds since the Unix epoch.
    closed spec fn view(&self) -> u64 {
        self.timestamp
    }
}

/// The timestamp of a comparator result, with its error unchanged.
pub open spec fn from_timestamp_result(r: Result<SnowflakeComparator, Error>) -> Result<u64, Error> {
    match r {
        Ok(c) => Ok(c@),
        Err(e) => Err(e),
    }
}

/// The sum of an epoch and a timestamp since that epoch, or `FatalSnowflakeExhaustion` where it
/// overflows a `u64`.
pub open spec fn epoch_timestamp(epoch: u64, timestamp: u64) -> Result<u64, Error> {
    if epoch + timestamp <= u64::MAX {
        Ok((epoch + timestamp) as u64)
    } else {
        Err(Error::FatalSnowflakeExhaustion)
    }
}

/// The comparator for a number of milliseconds since the Unix epoch, as the clock reports it.
pub open spec fn comparator_millis(millis: Option<u128>) -> Result<u64, Error> {
    match millis {
        None => Err(Error::InvalidEpoch),
        Some(m) => if m <= u64::MAX {
            Ok(m as u64)
        } else {
            Err(Error::FatalSnowflakeExhaustion)
        },
    }
}

impl SnowflakeComparator {
    /// Creates a comparator for a clock value: its whole milliseconds since the Unix epoch.
    ///
    /// Returns `Error::InvalidEpoch` where the time precedes the Unix epoch, and
    /// `Error::FatalSnowflakeExhaustion` where its milliseconds overflow a `u64`.
    pub fn from_system_time(time: SystemTime) -> (r: Result<Self, Error>)
        ensures
            from_timestamp_result(r) == comparator_millis(spec_millis_since_unix_epoch(time)),
    {
        Self::from_unix_millis(millis_since_unix_epoch(&time))
    }

    /// Creates a comparator from the clock's reading of a time in milliseconds since the Unix
    /// epoch: `None` stands for a time before the Unix epoch.
    pub fn from_unix_millis(millis: Option<u128>) -> (r: Result<Self, Error>)
        ensures
            from_timestamp_result(r) == comparator_millis(millis),
    {
        match millis {
            None => Err(Error::InvalidEpoch),
            Some(m) => {
                if m > 0xFFFF_FFFF_FFFF_FFFFu128 {
                    Err(Error::FatalSnowflakeExhaustion)
                } else {
                    Ok(SnowflakeComparator { timestamp: m as u64 })
                }
            },
        }
    }

    /// Creates a comparator for a timestamp in milliseconds since the start of epoch `E`.
    ///
    /// Returns `Error::FatalSnowflakeExhaustion` where the time since the Unix epoch overflows a
    /// `u64`.
    pub fn from_timestamp<E: Epoch>(timestamp: u64) -> (r: Result<Self, Error>)
        ensures
            from_timestamp_result(r) == epoch_timestamp(E::spec_millis_since_unix(), timestamp),
    {
        match Self::convert_epoch_timestamp::<E>(timestamp) {
            Ok(t) => Ok(SnowflakeComparator { timestamp: t }),
            Err(e) => Err(e),
        }
    }

    /// Creates a comparator for a timestamp in milliseconds since the Unix epoch.
    pub fn from_raw_timestamp(timestamp: u64) -> (r: Self)
        ensures
            r@ == timestamp,
    {
        SnowflakeComparator { timestamp }
    }

    /// Converts a timestamp since the start of epoch `E` into one since the Unix epoch.
    fn convert_epoch_timestamp<E: Epoch>(timestamp: u64) -> (r: Result<u64, Error>)
        ensures
            r == epoch_timestamp(E::spec_millis_since_unix(), timestamp),
    {
        match E::millis_since_unix().checked_add(timestamp) {
            Some(t) => Ok(t),
            None => Err(Error::FatalSnowflakeExhaustion),
        }
    }

    /// Returns the comparator's timestamp in milliseconds since the Unix epoch.
    pub fn get(&self) -> (r: u64)
        ensures
            r == self@,
    {
        self.timestamp
    }
}

impl PartialEq for SnowflakeComparator {
    fn eq(&self, other: &Self) -> (r: bool) {
        self.timestamp == other.timestamp
    }
}

impl PartialEqSpecImpl for SnowflakeComparator {
    open spec fn obeys_eq_spec() -> bool {
        true
    }

    open spec fn eq_spec(&self, other: &Self) -> bool {
        self@ == other@
    }
}

impl Eq for SnowflakeComparator {

}

impl PartialOrd for SnowflakeComparator {
    fn partial_cmp(&self, other: &Self) -> (r: Option<std::cmp::Ordering>) {
        Some(compare_u64_exec(self.timestamp, other.timestamp))
    }
}

impl PartialOrdSpecImpl for SnowflakeComparator {
    open spec fn obeys_partial_cmp_spec() -> bool {
        true
    }

    open spec fn partial_cmp_spec(&self, other: &Self) -> Option<std::cmp::Ordering> {
        Some(compare_u64(self@, other@))
    }
}

impl<L: Layout, E: Epoch> PartialEq<Snowflake<L, E>> for SnowflakeComparator {
    /// A snowflake whose timestamp overflows a `u64` is unequal to every comparator.
    fn eq(&self, other: &Snowflake<L, E>) -> (r: bool) {
        match other.timestamp_millis_since_unix() {
            Some(t) => self.timestamp == t,
            None => false,
        }
    }
}

impl<L: Layout, E: Epoch> PartialEqSpecImpl<Snowflake<L, E>> for SnowflakeComparator {
    open spec fn obeys_eq_spec() -> bool {
        true
    }

    open spec fn eq_spec(&self, other: &Snowflake<L, E>) -> bool {
        unix_millis(*other) == Some(self@)
    }
}

impl<L: Layout, E: Epoch> PartialEq<SnowflakeComparator> for Snowflake<L, E> {
    fn eq(&self, other: &SnowflakeComparator) -> (r: bool) {
        match self.timestamp_millis_since_unix() {
            Some(t) => t == other.timestamp,
            None => false,
        }
    }
}

impl<L: Layout, E: Epoch> PartialEqSpecImpl<SnowflakeComparator> for Snowflake<L, E> {
    open spec fn obeys_eq_spec() -> bool {
        true
    }

    open spec fn eq_spec(&self, other: &SnowflakeComparator) -> bool {
        unix_millis(*self) == Some(other@)
    }
}

impl<L: Layout, E: Epoch> PartialOrd<Snowflake<L, E>> for SnowflakeComparator {
    /// A snowflake whose timestamp overflows a `u64` is greater than every comparator.
    fn partial_cmp(&self, other: &Snowflake<L, E>) -> (r: Option<std::cmp::Ordering>) {
        match other.timestamp_millis_since_unix() {
            Some(t) => Some(compare_u64_exec(self.timestamp, t)),
            None => Some(std::cmp::Ordering::Less),
        }
    }
}

impl<L: Layout, E: Epoch> PartialOrdSpecImpl<Snowflake<L, E>> for SnowflakeComparator {
    open spec fn obeys_partial_cmp_spec() -> bool {
        true
    }

    open spec fn partial_cmp_spec(&self, other: &Snowflake<L, E>) -> Option<std::cmp::Ordering> {
        match unix_millis(*other) {
            Some(t) => Some(compare_u64(self@, t)),
            None => Some(std::cmp::Ordering::Less),
        }
    }
}

impl<L: Layout, E: Epoch> PartialOrd<SnowflakeComparator> for Snowflake<L, E> {
    /// A snowflake whose timestamp overflows a `u64` is greater than every comparator.
    fn partial_cmp(&self, other: &SnowflakeComparator) -> (r: Option<std::cmp::Ordering>) {
        match self.timestamp_millis_since_unix() {
            Some(t) => Some(compare_u64_exec(t, other.timestamp)),
            None => Some(std::cmp::Ordering::Greater),
        }
    }
}

impl<L: Layout, E: Epoch> PartialOrdSpecImpl<SnowflakeComparator> for Snowflake<L, E> {
    open spec fn obeys_partial_cmp_spec() -> bool {
        true
    }

    open spec fn partial_cmp_spec(&self, other: &SnowflakeComparator) -> Option<std::cmp::Ordering> {
        match unix_millis(*self) {
            Some(t) => Some(compare_u64(t, other@)),
            None => Some(std::cmp::Ordering::Greater),
        }
    }
}

/// The reverse of an ordering.
pub open spec fn reverse_ordering(o: std::cmp::Ordering) -> std::cmp::Ordering {
    match o {
        std::cmp::Ordering::Less => std::cmp::Ordering::Greater,
        std::cmp::Ordering::Equal => std::cmp::Ordering::Equal,
        std::cmp::Ordering::Greater => std::cmp::Ordering::Less,
    }
}

/// Comparing a comparator with a snowflake agrees with comparing the snowflake with the
/// comparator, reversed, and equality is exactly the `Equal` ordering, in both directions.
pub proof fn lemma_comparison_with_snowflake_consistent<L: Layout, E: Epoch>(
    comparator: SnowflakeComparator,
    snowflake: Snowflake<L, E>,
)
    ensures
        PartialOrdSpec::partial_cmp_spec(&comparator, &snowflake) == Some(
            reverse_ordering(PartialOrdSpec::partial_cmp_spec(&snowflake, &comparator)->Some_0),
        ),
        PartialOrdSpec::partial_cmp_spec(&snowflake, &comparator) is Some,
        PartialEqSpec::eq_spec(&comparator, &snowflake) == PartialEqSpec::eq_spec(&snowflake, &comparator),
        PartialEqSpec::eq_spec(&comparator, &snowflake) <==> PartialOrdSpec::partial_cmp_spec(&comparator, &snowflake) == Some(
            std::cmp::Ordering::Equal,
        ),
{
}

/// Comparators order snowflakes of one epoch as their timestamps: a comparator that equals one
/// snowflake is below every snowflake with a later timestamp and above every one with an
/// earlier timestamp.
pub proof fn lemma_comparator_orders_by_timestamp<L: Layout, E: Epoch>(
    comparator: SnowflakeComparator,
    a: Snowflake<L, E>,
    b: Snowflake<L, E>,
)
    requires
        PartialEqSpec::eq_spec(&comparator, &a),
    ensures
        L::spec_get_timestamp(a@) < L::spec_get_timestamp(b@) ==> PartialOrdSpec::partial_cmp_spec(&comparator, &b)
            == Some(std::cmp::Ordering::Less),
        L::spec_get_timestamp(b@) < L::spec_get_timestamp(a@) ==> PartialOrdSpec::partial_cmp_spec(&comparator, &b)
            == Some(std::cmp::Ordering::Greater),
        L::spec_get_timestamp(b@) == L::spec_get_timestamp(a@) ==> PartialEqSpec::eq_spec(&comparator, &b),
{
}

/// A snowflake equals the comparator built from its own birth time: where the snowflake's time
/// since the Unix epoch is `m` milliseconds and `time` lies `m` whole milliseconds after the
/// Unix epoch (as `get_timestamp` gives), the comparator for `time` equals the snowflake both
/// ways.
pub proof fn lemma_comparator_of_birth_time_equals<L: Layout, E: Epoch>(
    snowflake: Snowflake<L, E>,
    time: SystemTime,
    comparator: SnowflakeComparator,
)
    requires
        unix_millis(snowflake) matches Some(m) && spec_millis_since_unix_epoch(time) == Some(
            m as u128,
        ),
        from_timestamp_result(Ok(comparator)) == comparator_millis(
            spec_millis_since_unix_epoch(time),
        ),
    ensures
        PartialEqSpec::eq_spec(&comparator, &snowflake),
        PartialEqSpec::eq_spec(&snowflake, &comparator),
{
}

} // verus!

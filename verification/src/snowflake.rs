use std::marker::PhantomData;
use std::time::SystemTime;
use vstd::prelude::*;
use vstd::std_specs::cmp::{PartialEqSpecImpl, PartialOrdSpecImpl};

use crate::clock::{spec_millis_since_unix_epoch, unix_epoch_plus_millis, unrepresentable_millis};
use crate::comparator::{from_timestamp_result, SnowflakeComparator};
use crate::decimal::{decimal, push_decimal};
use crate::error::Error;
use crate::layout::{Epoch, Layout};

verus! {

/// A snowflake ID of layout `L` and epoch `E`.
///
/// Snowflakes are meant to be unique and monotonic: a snowflake generated before another one is
/// smaller. The type parameters keep snowflakes of different layouts or epochs apart.
#[derive(Debug, Ord, Hash)]
pub struct Snowflake<L: Layout, E: Epoch> {
    inner: u64,
    _marker: PhantomData<(L, E)>,
}

impl<L: Layout, E: Epoch> View for Snowflake<L, E> {
    type V = u64;

    /// The integer representation of the snowflake.
    closed spec fn view(&self) -> u64 {
        self.inner
    }
}

/// The snowflake's timestamp in milliseconds since the Unix epoch, where a `u64` holds it.
pub open spec fn unix_millis<L: Layout, E: Epoch>(snowflake: Snowflake<L, E>) -> Option<u64> {
    let sum = E::spec_millis_since_unix() + L::spec_get_timestamp(snowflake@);
    if sum <= u64::MAX {
        Some(sum as u64)
    } else {
        None
    }
}

/// Whether `r` is what `get_timestamp` gives for `snowflake`: the clock value `unix_millis`
/// milliseconds after the Unix epoch, or `FatalSnowflakeExhaustion` where that sum overflows a
/// `u64` or the clock type holds no value that far after the Unix epoch.
pub open spec fn is_birth_time<L: Layout, E: Epoch>(
    snowflake: Snowflake<L, E>,
    r: Result<SystemTime, Error>,
) -> bool {
    match r {
        Ok(t) => unix_millis(snowflake) matches Some(m) && spec_millis_since_unix_epoch(t) == Some(
            m as u128,
        ),
        Err(e) => e == Error::FatalSnowflakeExhaustion && (unix_millis(snowflake) matches Some(m)
            ==> unrepresentable_millis(m)),
    }
}

/// A snowflake has a birth time wherever the clock type can hold one: where some clock value
/// lies the snowflake's `unix_millis` milliseconds after the Unix epoch, `get_timestamp` gives
/// a time that far after the Unix epoch, not an error.
pub proof fn lemma_birth_time_defined<L: Layout, E: Epoch>(
    snowflake: Snowflake<L, E>,
    r: Result<SystemTime, Error>,
    witness: SystemTime,
)
    requires
        is_birth_time(snowflake, r),
        unix_millis(snowflake) matches Some(m) && spec_millis_since_unix_epoch(witness) == Some(
            m as u128,
        ),
    ensures
        r matches Ok(t) && spec_millis_since_unix_epoch(t) == spec_millis_since_unix_epoch(witness),
{
}

/// Birth times keep the distance between timestamps: of two snowflakes of one layout and epoch
/// that both have a birth time, the later-stamped one was born exactly the difference of their
/// timestamps, in milliseconds, after the other.
pub proof fn lemma_birth_times_follow_timestamps<L: Layout, E: Epoch>(
    a: Snowflake<L, E>,
    b: Snowflake<L, E>,
    ta: SystemTime,
    tb: SystemTime,
)
    requires
        is_birth_time(a, Ok(ta)),
        is_birth_time(b, Ok(tb)),
    ensures
        spec_millis_since_unix_epoch(ta) is Some,
        spec_millis_since_unix_epoch(tb) is Some,
        spec_millis_since_unix_epoch(tb)->Some_0 - spec_millis_since_unix_epoch(ta)->Some_0
            == L::spec_get_timestamp(b@) - L::spec_get_timestamp(a@),
{
}

impl<L: Layout, E: Epoch> Snowflake<L, E> {
    /// Builds the snowflake with the given integer representation, which is not checked.
    pub(crate) fn new_unchecked(inner: u64) -> (r: Self)
        ensures
            r@ == inner,
    {
        Snowflake { inner, _marker: PhantomData }
    }

    /// Returns the snowflake with the given integer representation, or
    /// `Error::InvalidSnowflake` where the layout rejects it.
    pub fn from_raw(input: u64) -> (r: Result<Self, Error>)
        ensures
            match r {
                Ok(s) => L::spec_is_valid_snowflake(input) && s@ == input,
                Err(e) => !L::spec_is_valid_snowflake(input) && e == Error::InvalidSnowflake,
            },
    {
        if !L::is_valid_snowflake(input) {
            return Err(Error::InvalidSnowflake);
        }
        Ok(Snowflake { inner: input, _marker: PhantomData })
    }

    /// Returns the integer representation of this snowflake.
    pub fn get(&self) -> (r: u64)
        ensures
            r == self@,
    {
        self.inner
    }

    /// Returns the time of this snowflake's birth: `timestamp_millis_since_unix` milliseconds
    /// after the Unix epoch.
    ///
    /// Returns `Error::FatalSnowflakeExhaustion` where the time in milliseconds since the Unix
    /// epoch overflows a `u64`, or where the clock type can't represent it.
    pub fn get_timestamp(&self) -> (r: Result<SystemTime, Error>)
        ensures
            unix_millis(*self) is None ==> r == Err::<SystemTime, Error>(
                Error::FatalSnowflakeExhaustion,
            ),
            r matches Err(e) ==> e == Error::FatalSnowflakeExhaustion,
            r matches Ok(t) ==> (unix_millis(*self) matches Some(m) && spec_millis_since_unix_epoch(t)
                == Some(m as u128)),
            is_birth_time(*self, r),
    {
        match self.timestamp_millis_since_unix() {
            None => Err(Error::FatalSnowflakeExhaustion),
            Some(millis) => match unix_epoch_plus_millis(millis) {
                Some(time) => Ok(time),
                None => Err(Error::FatalSnowflakeExhaustion),
            },
        }
    }

    /// Returns this snowflake's timestamp in milliseconds since the Unix epoch, or `None` where
    /// it overflows a `u64`.
    pub fn timestamp_millis_since_unix(&self) -> (r: Option<u64>)
        ensures
            r == unix_millis(*self),
    {
        E::millis_since_unix().checked_add(L::get_timestamp(self.inner))
    }

    /// Returns the snowflake as a decimal integer, which reads back as the same snowflake (see
    /// `lemma_decimal_round_trip`).
    pub fn to_string(&self) -> (r: String)
        ensures
            r@ == decimal(self@ as nat),
    {
        let mut out = String::new();
        push_decimal(self.inner, &mut out);
        out
    }

    /// Returns the number of milliseconds since this snowflake's epoch.
    pub fn get_timestamp_raw(&self) -> (r: u64)
        ensures
            r == L::spec_get_timestamp(self@),
    {
        L::get_timestamp(self.inner)
    }

    /// Returns this snowflake's sequence number.
    pub fn get_sequence_number(&self) -> (r: u64)
        ensures
            r == L::spec_get_sequence_number(self@),
    {
        L::get_sequence_number(self.inner)
    }

    /// Returns a comparator for this snowflake's timestamp, or
    /// `Error::FatalSnowflakeExhaustion` where the comparator can't represent it.
    pub fn get_comparator(&self) -> (r: Result<SnowflakeComparator, Error>)
        ensures
            from_timestamp_result(r) == (match unix_millis(*self) {
                Some(t) => Ok(t),
                None => Err(Error::FatalSnowflakeExhaustion),
            }),
    {
        SnowflakeComparator::from_timestamp::<E>(L::get_timestamp(self.inner))
    }
}

impl<L: Layout, E: Epoch> Clone for Snowflake<L, E> {
    fn clone(&self) -> (r: Self)
        ensures
            r == *self,
    {
        Snowflake { inner: self.inner, _marker: PhantomData }
    }
}

impl<L: Layout, E: Epoch> Copy for Snowflake<L, E> {

}

impl<L: Layout, E: Epoch> PartialEq for Snowflake<L, E> {
    fn eq(&self, other: &Self) -> (r: bool) {
        self.inner == other.inner
    }
}

impl<L: Layout, E: Epoch> PartialEqSpecImpl for Snowflake<L, E> {
    open spec fn obeys_eq_spec() -> bool {
        true
    }

    open spec fn eq_spec(&self, other: &Self) -> bool {
        self@ == other@
    }
}

impl<L: Layout, E: Epoch> Eq for Snowflake<L, E> {

}

/// The three-way comparison of two integers.
pub open spec fn compare_u64(a: u64, b: u64) -> std::cmp::Ordering {
    if a < b {
        std::cmp::Ordering::Less
    } else if a == b {
        std::cmp::Ordering::Equal
    } else {
        std::cmp::Ordering::Greater
    }
}

/// Compares two integers.
pub(crate) fn compare_u64_exec(a: u64, b: u64) -> (r: std::cmp::Ordering)
    ensures
        r == compare_u64(a, b),
{
    if a < b {
        std::cmp::Ordering::Less
    } else if a == b {
        std::cmp::Ordering::Equal
    } else {
        std::cmp::Ordering::Greater
    }
}

impl<L: Layout, E: Epoch> PartialOrd for Snowflake<L, E> {
    fn partial_cmp(&self, other: &Self) -> (r: Option<std::cmp::Ordering>) {
        Some(compare_u64_exec(self.inner, other.inner))
    }
}

impl<L: Layout, E: Epoch> PartialOrdSpecImpl for Snowflake<L, E> {
    open spec fn obeys_partial_cmp_spec() -> bool {
        true
    }

    open spec fn partial_cmp_spec(&self, other: &Self) -> Option<std::cmp::Ordering> {
        Some(compare_u64(self@, other@))
    }
}

} // verus!

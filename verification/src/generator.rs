use std::marker::PhantomData;
use std::sync::atomic::{AtomicU64, Ordering};
use std::sync::{Arc, Mutex, MutexGuard};
use std::time::SystemTime;
use vstd::prelude::*;

use crate::clock::{
    clock_reading, elapsed_from_unix_millis, millis_since_unix_epoch, real_clock_reading,
    spec_millis_since_unix_epoch, system_time_now, unix_epoch_plus_millis, unrepresentable_millis,
    ElapsedTime,
};
use crate::error::Error;
use crate::layout::{fits, is_constructed, layout_laws, pair_lt, Epoch, Layout};
use crate::snowflake::Snowflake;
use crate::sync::{guarded, guarded_value, lock_mutex, new_mutex, set_guarded_value};

verus! {

/// Whether a generator of layout `L` can build every snowflake it decides on: the layout's
/// constant parts fit, and so does the sequence number `0`.
pub open spec fn can_generate<L: Layout>() -> bool {
    L::spec_constant_parts_valid() && !L::spec_exceeds_sequence_number(0)
}

/// The timestamp since the epoch that a clock reading gives, or the error for it.
pub open spec fn timestamp_from_elapsed<L: Layout>(elapsed: ElapsedTime) -> Result<u64, Error> {
    match elapsed {
        ElapsedTime::EpochUnrepresentable => Err(Error::FatalSnowflakeExhaustion),
        ElapsedTime::BeforeEpoch => Err(Error::InvalidEpoch),
        ElapsedTime::Millis(m) => if m > u64::MAX || L::spec_exceeds_timestamp(m as u64) {
            Err(Error::FatalSnowflakeExhaustion)
        } else {
            Ok(m as u64)
        },
    }
}

/// The snowflake that follows `last` at timestamp `time`, or the error for it:
/// - at the timestamp of `last`, the sequence number of `last` plus one, where it fits;
/// - at a later timestamp, sequence number `0`;
/// - at an earlier timestamp, `NonMonotonicClock`.
pub open spec fn next_snowflake_result<L: Layout>(last: u64, time: u64) -> Result<u64, Error> {
    let last_timestamp = L::spec_get_timestamp(last);
    let last_sequence = L::spec_get_sequence_number(last);
    if last_timestamp == time {
        if last_sequence == u64::MAX || L::spec_exceeds_sequence_number((last_sequence + 1) as u64) {
            Err(Error::SnowflakeExhaustion)
        } else {
            Ok(L::spec_construct_snowflake(time, (last_sequence + 1) as u64))
        }
    } else if last_timestamp < time {
        Ok(L::spec_construct_snowflake(time, 0))
    } else {
        Err(Error::NonMonotonicClock)
    }
}

/// One generation step: the clock reading gives the timestamp, which decides the snowflake that
/// follows the last one.
pub open spec fn generation_step<L: Layout>(last: u64, elapsed: ElapsedTime) -> Result<u64, Error> {
    match timestamp_from_elapsed::<L>(elapsed) {
        Ok(time) => next_snowflake_result::<L>(last, time),
        Err(e) => Err(e),
    }
}

/// The results of a run of generation steps, one per clock reading, each from the snowflake
/// that the last successful step generated (initially `last`).
pub open spec fn generation_run<L: Layout>(last: u64, readings: Seq<ElapsedTime>) -> Seq<
    Result<u64, Error>,
>
    decreases readings.len(),
{
    if readings.len() == 0 {
        Seq::empty()
    } else {
        let r = generation_step::<L>(last, readings[0]);
        let next_last = match r {
            Ok(n) => n,
            Err(_) => last,
        };
        seq![r] + generation_run::<L>(next_last, readings.drop_first())
    }
}

/// A generated snowflake follows the last one: it is greater, has the requested timestamp, and
/// has the next sequence number at the same timestamp or sequence number `0` at a later one (so
/// sequence numbers have no holes). It is again a snowflake that the layout built.
pub proof fn lemma_next_snowflake_increases<L: Layout>(last: u64, time: u64)
    requires
        layout_laws::<L>(),
        can_generate::<L>(),
        !L::spec_exceeds_timestamp(time),
        last == 0 || is_constructed::<L>(last),
        next_snowflake_result::<L>(last, time) is Ok,
    ensures
        ({
            let n = next_snowflake_result::<L>(last, time)->Ok_0;
            &&& last < n
            &&& is_constructed::<L>(n)
            &&& L::spec_get_timestamp(n) == time
            &&& L::spec_get_sequence_number(n) == if L::spec_get_timestamp(last) == time {
                L::spec_get_sequence_number(last) + 1
            } else {
                0
            }
        }),
{
    let t0 = L::spec_get_timestamp(last);
    let s0 = L::spec_get_sequence_number(last);
    let s1: u64 = if t0 == time {
        (s0 + 1) as u64
    } else {
        0
    };
    let n = L::spec_construct_snowflake(time, s1);
    assert(next_snowflake_result::<L>(last, time) == Ok::<u64, Error>(n));
    assert(fits::<L>(time, s1));
    assert(L::spec_get_timestamp(n) == time && L::spec_get_sequence_number(n) == s1);
    if is_constructed::<L>(last) {
        assert(pair_lt(t0, s0, time, s1));
        assert(L::spec_construct_snowflake(t0, s0) < L::spec_construct_snowflake(time, s1));
    } else {
        assert(!L::spec_exceeds_timestamp(0) && !L::spec_exceeds_timestamp(time));
        assert(fits::<L>(0, 0));
        assert(pair_lt(0, 0, time, s1));
        assert(L::spec_construct_snowflake(0, 0) < L::spec_construct_snowflake(time, s1));
    }
}

/// A generation step gives a snowflake that follows the last one, as
/// [`lemma_next_snowflake_increases`] states.
pub proof fn lemma_generation_step_increases<L: Layout>(last: u64, elapsed: ElapsedTime)
    requires
        layout_laws::<L>(),
        can_generate::<L>(),
        last == 0 || is_constructed::<L>(last),
        generation_step::<L>(last, elapsed) is Ok,
    ensures
        last < generation_step::<L>(last, elapsed)->Ok_0,
        is_constructed::<L>(generation_step::<L>(last, elapsed)->Ok_0),
{
    let time = timestamp_from_elapsed::<L>(elapsed)->Ok_0;
    lemma_next_snowflake_increases::<L>(last, time);
}

/// Every snowflake of a run is greater than the snowflake that the run starts from, and is a
/// snowflake that the layout built.
proof fn lemma_generation_run_above<L: Layout>(last: u64, readings: Seq<ElapsedTime>, k: int)
    requires
        layout_laws::<L>(),
        can_generate::<L>(),
        last == 0 || is_constructed::<L>(last),
        0 <= k < readings.len(),
    ensures
        generation_run::<L>(last, readings).len() == readings.len(),
        generation_run::<L>(last, readings)[k] matches Ok(n) ==> last < n && is_constructed::<L>(n),
    decreases readings.len(),
{
    let r = generation_step::<L>(last, readings[0]);
    let next_last = match r {
        Ok(n) => n,
        Err(_) => last,
    };
    let rest = readings.drop_first();
    if r is Ok {
        lemma_generation_step_increases::<L>(last, readings[0]);
    }
    if readings.len() > 1 {
        lemma_generation_run_above::<L>(next_last, rest, 0);
    } else {
        assert(rest.len() == 0);
    }
    if k > 0 {
        lemma_generation_run_above::<L>(next_last, rest, k - 1);
    }
}

/// The snowflakes that one generator generates are unique and strictly monotonic: in a run of
/// generation steps, a snowflake generated later is greater than every one generated earlier.
pub proof fn lemma_generation_run_increasing<L: Layout>(
    last: u64,
    readings: Seq<ElapsedTime>,
    i: int,
    j: int,
)
    requires
        layout_laws::<L>(),
        can_generate::<L>(),
        last == 0 || is_constructed::<L>(last),
        0 <= i < j < readings.len(),
        generation_run::<L>(last, readings)[i] is Ok,
        generation_run::<L>(last, readings)[j] is Ok,
    ensures
        generation_run::<L>(last, readings)[i]->Ok_0 < generation_run::<L>(last, readings)[j]->Ok_0,
    decreases readings.len(),
{
    let r = generation_step::<L>(last, readings[0]);
    let next_last = match r {
        Ok(n) => n,
        Err(_) => last,
    };
    let rest = readings.drop_first();
    lemma_generation_run_above::<L>(last, readings, 0);
    if r is Ok {
        lemma_generation_step_increases::<L>(last, readings[0]);
    }
    if i == 0 {
        lemma_generation_run_above::<L>(next_last, rest, j - 1);
    } else {
        lemma_generation_run_increasing::<L>(next_last, rest, i - 1, j - 1);
    }
}

/// A snowflake generated from a reading of the system clock carries the time that the clock
/// read: its timestamp, added to the start of epoch `E`, is the whole number of milliseconds
/// since the Unix epoch of a value that the clock can read. So the timestamp counts from the
/// start of the generator's epoch, not from the Unix epoch.
pub proof fn lemma_clock_generation_timestamp<L: Layout, E: Epoch>(last: u64, elapsed: ElapsedTime)
    requires
        layout_laws::<L>(),
        can_generate::<L>(),
        real_clock_reading(E::spec_millis_since_unix(), elapsed),
        generation_step::<L>(last, elapsed) is Ok,
    ensures
        exists|now: SystemTime|
            #[trigger] spec_millis_since_unix_epoch(now) == Some(
                (E::spec_millis_since_unix() + L::spec_get_timestamp(
                    generation_step::<L>(last, elapsed)->Ok_0,
                )) as u128,
            ),
{
    let epoch = E::spec_millis_since_unix();
    let now = choose|now: SystemTime| elapsed == #[trigger] clock_reading(epoch, now);
    let m = spec_millis_since_unix_epoch(now)->Some_0;
    let time = timestamp_from_elapsed::<L>(elapsed)->Ok_0;
    assert(time == m - epoch);
    let t0 = L::spec_get_timestamp(last);
    let s0 = L::spec_get_sequence_number(last);
    let s1: u64 = if t0 == time {
        (s0 + 1) as u64
    } else {
        0
    };
    assert(fits::<L>(time, s1));
    assert(generation_step::<L>(last, elapsed) == Ok::<u64, Error>(
        L::spec_construct_snowflake(time, s1),
    ));
    assert(L::spec_get_timestamp(L::spec_construct_snowflake(time, s1)) == time);
    assert(spec_millis_since_unix_epoch(now) == Some((epoch + time) as u128));
}

/// Handles to one generator share one state: a generator shares it with itself, sharing goes
/// both ways, and a clone of a clone shares it with the first generator. So every handle that
/// `clone` makes, directly or from another clone, works on the same last snowflake.
pub proof fn lemma_shared_state_is_equivalence<L: Layout, E: Epoch>(
    a: Generator<L, E>,
    b: Generator<L, E>,
    c: Generator<L, E>,
)
    ensures
        a.shares_state_with(a),
        a.shares_state_with(b) ==> b.shares_state_with(a),
        a.shares_state_with(b) && b.shares_state_with(c) ==> a.shares_state_with(c),
{
}

/// What the lock-free loop does after a compare-and-swap.
#[derive(Debug, Clone, Copy, PartialEq, Eq)]
pub enum CasStep {
    /// The snowflake was stored; it is the result.
    Done(u64),
    /// Another snowflake was stored meanwhile; the step is tried again from it.
    Retry(u64),
    /// The tries are used up.
    GiveUp,
}

/// What follows a compare-and-swap with outcome `cas` that tried to store `snowflake` after
/// `attempts` retries.
pub open spec fn compare_exchange_step(cas: Result<u64, u64>, snowflake: u64, attempts: u64) -> CasStep {
    match cas {
        Ok(_) => CasStep::Done(snowflake),
        Err(current) => if attempts == u64::MAX {
            CasStep::GiveUp
        } else {
            CasStep::Retry(current)
        },
    }
}

/// The integer representation of a generated snowflake, with an error unchanged.
pub open spec fn generated_value<L: Layout, E: Epoch>(r: Result<Snowflake<L, E>, Error>) -> Result<
    u64,
    Error,
> {
    match r {
        Ok(s) => Ok(s@),
        Err(e) => Err(e),
    }
}

/// A thread-safe snowflake generator for layout `L` and epoch `E`.
///
/// It keeps the last snowflake it generated, behind a lock for `generate_blocking` and in an
/// atomic integer for `generate_lock_free`. Each generation performs one step of
/// [`generation_step`] on the value it reads there, for a reading of the system clock against
/// the start of epoch `E` (see [`real_clock_reading`] and [`lemma_clock_generation_timestamp`]).
/// The contracts of the generate functions state only that the result is such a step from some
/// snowflake: which value was stored is not modelled. [`lemma_generation_run_increasing`] shows
/// that the successful steps of a run, each from the result of the one before, give strictly
/// increasing snowflakes.
#[derive(Debug)]
pub struct Generator<L: Layout, E: Epoch> {
    last_snowflake_blocking: Arc<Mutex<u64>>,
    last_snowflake_atomic: Arc<AtomicU64>,
    _marker: PhantomData<(L, E)>,
}

impl<L: Layout, E: Epoch> Generator<L, E> {
    /// Whether two generators keep their last snowflakes in the same lock and the same atomic
    /// integer, so that each sees what the other generates.
    pub closed spec fn shares_state_with(self, other: Self) -> bool {
        self.last_snowflake_blocking == other.last_snowflake_blocking
            && self.last_snowflake_atomic == other.last_snowflake_atomic
    }

    /// Reads how far `now` is past the start of epoch `E`.
    ///
    /// `EpochUnrepresentable` comes only where the clock type holds no value at the start of the
    /// epoch, which depends on the platform; every other result is the reading of `now`.
    pub fn elapsed_since_epoch(now: &SystemTime) -> (r: ElapsedTime)
        ensures
            r is EpochUnrepresentable || r == elapsed_from_unix_millis(
                E::spec_millis_since_unix(),
                spec_millis_since_unix_epoch(*now),
            ),
            r is EpochUnrepresentable ==> unrepresentable_millis(E::spec_millis_since_unix()),
            r !is EpochUnrepresentable ==> r == clock_reading(E::spec_millis_since_unix(), *now),
            real_clock_reading(E::spec_millis_since_unix(), r),
    {
        let epoch = E::millis_since_unix();
        match unix_epoch_plus_millis(epoch) {
            None => ElapsedTime::EpochUnrepresentable,
            Some(_) => match millis_since_unix_epoch(now) {
                None => ElapsedTime::BeforeEpoch,
                Some(millis) => {
                    if millis < epoch as u128 {
                        ElapsedTime::BeforeEpoch
                    } else {
                        ElapsedTime::Millis(millis - epoch as u128)
                    }
                },
            },
        }
    }

    /// Returns the timestamp since the epoch for a clock reading: `FatalSnowflakeExhaustion`
    /// where the epoch can't be represented or the timestamp doesn't fit into the layout, and
    /// `InvalidEpoch` where the epoch is in the future.
    pub fn timestamp_from_elapsed(elapsed: ElapsedTime) -> (r: Result<u64, Error>)
        ensures
            r == timestamp_from_elapsed::<L>(elapsed),
            r matches Ok(t) ==> !L::spec_exceeds_timestamp(t),
    {
        match elapsed {
            ElapsedTime::EpochUnrepresentable => Err(Error::FatalSnowflakeExhaustion),
            ElapsedTime::BeforeEpoch => Err(Error::InvalidEpoch),
            ElapsedTime::Millis(millis) => {
                if millis > 0xFFFF_FFFF_FFFF_FFFFu128 || L::exceeds_timestamp(millis as u64) {
                    Err(Error::FatalSnowflakeExhaustion)
                } else {
                    Ok(millis as u64)
                }
            },
        }
    }

    /// Returns the current timestamp in milliseconds since the epoch, read from the system
    /// clock.
    fn get_timestamp() -> (r: Result<u64, Error>)
        ensures
            exists|elapsed: ElapsedTime|
                real_clock_reading(E::spec_millis_since_unix(), elapsed) && r
                    == #[trigger] timestamp_from_elapsed::<L>(elapsed),
            r matches Ok(t) ==> !L::spec_exceeds_timestamp(t),
    {
        let now = system_time_now();
        let elapsed = Self::elapsed_since_epoch(&now);
        Self::timestamp_from_elapsed(elapsed)
    }

    /// Returns the snowflake that follows `last` at timestamp `time`.
    pub fn next_snowflake(last: u64, time: u64) -> (r: Result<u64, Error>)
        requires
            can_generate::<L>(),
            !L::spec_exceeds_timestamp(time),
        ensures
            r == next_snowflake_result::<L>(last, time),
    {
        let last_timestamp = L::get_timestamp(last);
        if last_timestamp == time {
            let sequence = match L::get_sequence_number(last).checked_add(1) {
                Some(s) => s,
                None => return Err(Error::SnowflakeExhaustion),
            };
            if L::exceeds_sequence_number(sequence) {
                return Err(Error::SnowflakeExhaustion);
            }
            Ok(L::construct_snowflake(time, sequence))
        } else if last_timestamp < time {
            Ok(L::construct_snowflake(time, 0))
        } else {
            Err(Error::NonMonotonicClock)
        }
    }

    /// Generates a snowflake: the lock-free generator, as `generate_lock_free` does.
    pub fn generate(&self) -> (r: Result<Snowflake<L, E>, Error>)
        requires
            can_generate::<L>(),
        ensures
            r == Err::<Snowflake<L, E>, Error>(Error::SnowflakeExhaustion) || exists|
                last: u64,
                elapsed: ElapsedTime,
            |
                real_clock_reading(E::spec_millis_since_unix(), elapsed) && generated_value(r)
                    == #[trigger] generation_step::<L>(last, elapsed),
    {
        self.generate_lock_free()
    }

    /// Generates a snowflake for a given clock reading, as `generate_lock_free_at` does.
    pub fn generate_at(&self, elapsed: ElapsedTime) -> (r: Result<Snowflake<L, E>, Error>)
        requires
            can_generate::<L>(),
        ensures
            timestamp_from_elapsed::<L>(elapsed) matches Err(e) ==> r == Err::<
                Snowflake<L, E>,
                Error,
            >(e),
            r == Err::<Snowflake<L, E>, Error>(Error::SnowflakeExhaustion) || exists|last: u64|
                generated_value(r) == #[trigger] generation_step::<L>(last, elapsed),
    {
        self.generate_lock_free_at(elapsed)
    }

    /// Generates a snowflake under the generator's lock, with the system clock read after the
    /// lock is taken.
    ///
    /// The snowflake follows the last one that this generator generated: see
    /// [`generation_step`]. The errors are those of [`timestamp_from_elapsed`] and
    /// [`next_snowflake_result`].
    pub fn generate_blocking(&self) -> (r: Result<Snowflake<L, E>, Error>)
        requires
            can_generate::<L>(),
        ensures
            exists|last: u64, elapsed: ElapsedTime|
                real_clock_reading(E::spec_millis_since_unix(), elapsed) && generated_value(r)
                    == #[trigger] generation_step::<L>(last, elapsed),
    {
        let mut guard = lock_mutex(&self.last_snowflake_blocking);
        let time = Self::get_timestamp();
        let r = Self::blocking_step(&mut guard, time);
        proof {
            let elapsed = choose|elapsed: ElapsedTime|
                real_clock_reading(E::spec_millis_since_unix(), elapsed) && time
                    == timestamp_from_elapsed::<L>(elapsed);
            let last = choose|last: u64| Self::step_outcome(r, time, last);
            assert(generated_value(r) == generation_step::<L>(last, elapsed));
        }
        r
    }

    /// Generates a snowflake under the generator's lock for a given clock reading.
    pub fn generate_blocking_at(&self, elapsed: ElapsedTime) -> (r: Result<Snowflake<L, E>, Error>)
        requires
            can_generate::<L>(),
        ensures
            timestamp_from_elapsed::<L>(elapsed) matches Err(e) ==> r == Err::<
                Snowflake<L, E>,
                Error,
            >(e),
            exists|last: u64| generated_value(r) == #[trigger] generation_step::<L>(last, elapsed),
    {
        let mut guard = lock_mutex(&self.last_snowflake_blocking);
        let time = Self::timestamp_from_elapsed(elapsed);
        let r = Self::blocking_step(&mut guard, time);
        proof {
            let last = choose|last: u64| Self::step_outcome(r, time, last);
            assert(generated_value(r) == generation_step::<L>(last, elapsed));
        }
        r
    }

    /// Whether `r` is what a step from `last` gives for the timestamp result `time`.
    spec fn step_outcome(r: Result<Snowflake<L, E>, Error>, time: Result<u64, Error>, last: u64) -> bool {
        generated_value(r) == match time {
            Ok(t) => next_snowflake_result::<L>(last, t),
            Err(e) => Err(e),
        }
    }

    /// One generation step on the locked last snowflake, for a timestamp or the error that
    /// reading the clock gave: the step starts from the locked value, and a generated snowflake
    /// replaces it.
    fn blocking_step(guard: &mut MutexGuard<'_, u64>, time: Result<u64, Error>) -> (r: Result<
        Snowflake<L, E>,
        Error,
    >)
        requires
            can_generate::<L>(),
            time matches Ok(t) ==> !L::spec_exceeds_timestamp(t),
        ensures
            Self::step_outcome(r, time, guarded(*old(guard))),
            guarded(*final(guard)) == match r {
                Ok(s) => s@,
                Err(_) => guarded(*old(guard)),
            },
            exists|last: u64| #[trigger] Self::step_outcome(r, time, last),
    {
        let time = match time {
            Ok(t) => t,
            Err(e) => {
                assert(Self::step_outcome(Err(e), Err(e), 0));
                return Err(e);
            },
        };
        let last = guarded_value(guard);
        let next = Self::next_snowflake(last, time);
        let r = match next {
            Ok(snowflake) => {
                set_guarded_value(guard, snowflake);
                Ok(Snowflake::new_unchecked(snowflake))
            },
            Err(e) => Err(e),
        };
        assert(Self::step_outcome(r, Ok(time), last));
        r
    }

    /// Generates a snowflake without locks: the last snowflake is read, the next one is decided
    /// on, and a compare-and-swap stores it only where no other thread stored one meanwhile;
    /// otherwise the step is tried again from the snowflake that the other thread stored. The
    /// system clock is read anew for each try.
    ///
    /// After `u64::MAX` failed tries in a row this gives up with `SnowflakeExhaustion`; every
    /// failed try means that another snowflake was stored meanwhile.
    pub fn generate_lock_free(&self) -> (r: Result<Snowflake<L, E>, Error>)
        requires
            can_generate::<L>(),
        ensures
            r == Err::<Snowflake<L, E>, Error>(Error::SnowflakeExhaustion) || exists|
                last: u64,
                elapsed: ElapsedTime,
            |
                real_clock_reading(E::spec_millis_since_unix(), elapsed) && generated_value(r)
                    == #[trigger] generation_step::<L>(last, elapsed),
    {
        self.lock_free_with(None).0
    }

    /// Generates a snowflake without locks for a given clock reading.
    pub fn generate_lock_free_at(&self, elapsed: ElapsedTime) -> (r: Result<Snowflake<L, E>, Error>)
        requires
            can_generate::<L>(),
        ensures
            timestamp_from_elapsed::<L>(elapsed) matches Err(e) ==> r == Err::<
                Snowflake<L, E>,
                Error,
            >(e),
            r == Err::<Snowflake<L, E>, Error>(Error::SnowflakeExhaustion) || exists|last: u64|
                generated_value(r) == #[trigger] generation_step::<L>(last, elapsed),
    {
        self.lock_free_with(Some(elapsed)).0
    }

    /// Whether `result` is what a generation step gives for some last snowflake and some clock
    /// reading (the given one, where `reading` fixes it).
    spec fn stepped(reading: Option<ElapsedTime>, result: Result<u64, Error>) -> bool {
        exists|last: u64, elapsed: ElapsedTime|
            (match reading {
                Some(fixed) => elapsed == fixed,
                None => real_clock_reading(E::spec_millis_since_unix(), elapsed),
            }) && result == #[trigger] generation_step::<L>(last, elapsed)
    }

    /// What follows a compare-and-swap that tried to store `snowflake` on the `attempts`-th
    /// retry: done where it stored it, another try from the value found otherwise, and giving
    /// up where `u64::MAX` retries were already made.
    pub fn after_compare_exchange(cas: Result<u64, u64>, snowflake: u64, attempts: u64) -> (r:
        CasStep)
        ensures
            r == compare_exchange_step(cas, snowflake, attempts),
    {
        match cas {
            Ok(_) => CasStep::Done(snowflake),
            Err(current) => {
                if attempts == u64::MAX {
                    CasStep::GiveUp
                } else {
                    CasStep::Retry(current)
                }
            },
        }
    }

    /// The compare-and-swap loop, with the clock read each try (`None`) or a fixed reading.
    /// Beside the result it gives, as a ghost value, the last compare-and-swap it made: its
    /// outcome, the snowflake it tried to store and the number of retries before it.
    fn lock_free_with(&self, reading: Option<ElapsedTime>) -> (out: (
        Result<Snowflake<L, E>, Error>,
        Ghost<Option<(Result<u64, u64>, u64, u64)>>,
    ))
        requires
            can_generate::<L>(),
        ensures
            reading matches Some(elapsed) ==> (timestamp_from_elapsed::<L>(elapsed) matches Err(
                e,
            ) ==> out.0 == Err::<Snowflake<L, E>, Error>(e)),
            match out.0 {
                Ok(s) => out.1@ matches Some((cas, n, a)) && compare_exchange_step(cas, n, a)
                    == CasStep::Done(s@) && Self::stepped(reading, Ok(n)),
                Err(e) => Self::stepped(reading, Err(e)) || (out.1@ matches Some((cas, n, a))
                    && compare_exchange_step(cas, n, a) == CasStep::GiveUp && e
                    == Error::SnowflakeExhaustion && Self::stepped(reading, Ok(n))),
            },
    {
        let mut last = self.last_snowflake_atomic.load(Ordering::Relaxed);
        let mut attempts: u64 = 0;
        let ghost mut end: Option<(Result<u64, u64>, u64, u64)> = None;
        loop
            invariant
                can_generate::<L>(),
            decreases u64::MAX - attempts,
        {
            let time = match reading {
                Some(fixed) => Self::timestamp_from_elapsed(fixed),
                None => Self::get_timestamp(),
            };
            let ghost elapsed = match reading {
                Some(fixed) => fixed,
                None => choose|elapsed: ElapsedTime|
                    real_clock_reading(E::spec_millis_since_unix(), elapsed) && time
                        == timestamp_from_elapsed::<L>(elapsed),
            };
            assert(time == timestamp_from_elapsed::<L>(elapsed));
            assert(reading is None ==> real_clock_reading(E::spec_millis_since_unix(), elapsed));
            let time = match time {
                Ok(t) => t,
                Err(e) => {
                    assert(generated_value::<L, E>(Err(e)) == generation_step::<L>(last, elapsed));
                    assert(Self::stepped(reading, Err(e)));
                    return (Err(e), Ghost(end));
                },
            };
            let next = Self::next_snowflake(last, time);
            assert(next == generation_step::<L>(last, elapsed));
            assert(Self::stepped(reading, next));
            let snowflake = match next {
                Ok(n) => n,
                Err(e) => return (Err(e), Ghost(end)),
            };
            let cas = self.last_snowflake_atomic.compare_exchange_weak(
                last,
                snowflake,
                Ordering::AcqRel,
                Ordering::Relaxed,
            );
            proof {
                end = Some((cas, snowflake, attempts));
            }
            match Self::after_compare_exchange(cas, snowflake, attempts) {
                CasStep::Done(stored) => return (Ok(Snowflake::new_unchecked(stored)), Ghost(end)),
                CasStep::Retry(current) => {
                    last = current;
                    attempts = attempts + 1;
                },
                CasStep::GiveUp => return (Err(Error::SnowflakeExhaustion), Ghost(end)),
            }
        }
    }

    /// Sets the last generated snowflake, which must be valid for the layout.
    pub fn set_last_snowflake(&self, last_snowflake: u64)
        requires
            L::spec_is_valid_snowflake(last_snowflake),
    {
        let mut guard = lock_mutex(&self.last_snowflake_blocking);
        set_guarded_value(&mut guard, last_snowflake);
        self.last_snowflake_atomic.store(last_snowflake, Ordering::Release);
    }
}

impl<L: Layout, E: Epoch> Default for Generator<L, E> {
    /// Returns a new generator whose last snowflake is `0`: the first millisecond of its epoch,
    /// with sequence number `0`.
    fn default() -> (r: Self) {
        Generator {
            last_snowflake_blocking: Arc::new(new_mutex(0)),
            last_snowflake_atomic: Arc::new(AtomicU64::new(0)),
            _marker: PhantomData,
        }
    }
}

impl<L: Layout, E: Epoch> Clone for Generator<L, E> {
    /// Returns a handle to the same generator: both share the last generated snowflake.
    fn clone(&self) -> (r: Self)
        ensures
            r.shares_state_with(*self),
    {
        Generator {
            last_snowflake_blocking: self.last_snowflake_blocking.clone(),
            last_snowflake_atomic: self.last_snowflake_atomic.clone(),
            _marker: PhantomData,
        }
    }
}

} // verus!

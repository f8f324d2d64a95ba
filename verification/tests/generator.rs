use snowdon::{CasStep, ElapsedTime, Epoch, Error, Generator, Layout, Snowflake};
use std::collections::HashSet;
use std::time::{Duration, SystemTime};

#[derive(Debug, PartialEq, Eq, Hash)]
struct SimpleSnowflakeParams;

impl Layout for SimpleSnowflakeParams {
    fn construct_snowflake(timestamp: u64, sequence_number: u64) -> u64 {
        assert!(!Self::exceeds_timestamp(timestamp) && !Self::exceeds_sequence_number(sequence_number));
        timestamp << 12 | sequence_number
    }
    fn get_timestamp(input: u64) -> u64 {
        input >> 12
    }
    fn exceeds_timestamp(input: u64) -> bool {
        input >= (1 << 51)
    }
    fn get_sequence_number(input: u64) -> u64 {
        input & ((1 << 12) - 1)
    }
    fn exceeds_sequence_number(input: u64) -> bool {
        input >= (1 << 12)
    }
    fn is_valid_snowflake(input: u64) -> bool {
        input >> 63 == 0
    }
}

impl Epoch for SimpleSnowflakeParams {
    fn millis_since_unix() -> u64 {
        1672531200000
    }
}

type SimpleSnowflake = Snowflake<SimpleSnowflakeParams, SimpleSnowflakeParams>;
type SimpleSnowflakeGenerator = Generator<SimpleSnowflakeParams, SimpleSnowflakeParams>;

#[derive(Debug)]
struct Bad;

impl Layout for Bad {
    fn construct_snowflake(_timestamp: u64, sequence_number: u64) -> u64 {
        sequence_number
    }
    fn get_timestamp(_input: u64) -> u64 {
        0
    }
    fn exceeds_timestamp(_input: u64) -> bool {
        false
    }
    fn get_sequence_number(input: u64) -> u64 {
        input
    }
    fn exceeds_sequence_number(_input: u64) -> bool {
        false
    }
    fn is_valid_snowflake(_input: u64) -> bool {
        true
    }
}

#[derive(Debug)]
struct BadEpoch;

impl Epoch for BadEpoch {
    fn millis_since_unix() -> u64 {
        u64::MAX
    }
}

/// The clock reading of a time given in milliseconds since the Unix epoch.
fn reading_at(millis_since_unix: u64) -> ElapsedTime {
    SimpleSnowflakeGenerator::elapsed_since_epoch(
        &(SystemTime::UNIX_EPOCH + Duration::from_millis(millis_since_unix)),
    )
}

type GenerateAt = fn(&SimpleSnowflakeGenerator, ElapsedTime) -> Result<SimpleSnowflake, Error>;

const GENERATORS: [GenerateAt; 3] = [
    SimpleSnowflakeGenerator::generate_at,
    SimpleSnowflakeGenerator::generate_blocking_at,
    SimpleSnowflakeGenerator::generate_lock_free_at,
];

#[test]
fn malicious_snowflake_exhaustion() {
    type BadGen = Generator<Bad, SimpleSnowflakeParams>;
    let gen = BadGen::default();
    gen.set_last_snowflake(u64::MAX);
    let reading =
        BadGen::elapsed_since_epoch(&(SystemTime::UNIX_EPOCH + Duration::from_millis(1672531200000)));
    assert_eq!(ElapsedTime::Millis(0), reading);
    assert_eq!(Error::SnowflakeExhaustion, BadGen::generate_at(&gen, reading).unwrap_err());
    assert_eq!(Error::SnowflakeExhaustion, BadGen::generate_blocking_at(&gen, reading).unwrap_err());
    assert_eq!(
        Error::SnowflakeExhaustion,
        BadGen::generate_lock_free_at(&gen, reading).unwrap_err()
    );
}

#[test]
fn test_extreme_epoch() {
    type BadGen = Generator<SimpleSnowflakeParams, BadEpoch>;
    let gen = BadGen::default();
    // The reading of a clock type whose range ends before the start of this epoch.
    let reading = ElapsedTime::EpochUnrepresentable;
    assert_eq!(Error::FatalSnowflakeExhaustion, gen.generate_at(reading).unwrap_err());
    assert_eq!(Error::FatalSnowflakeExhaustion, gen.generate_blocking_at(reading).unwrap_err());
    assert_eq!(Error::FatalSnowflakeExhaustion, gen.generate_lock_free_at(reading).unwrap_err());
}

#[test]
fn generator_unique() {
    for generate in GENERATORS {
        let gen = SimpleSnowflakeGenerator::default();
        let mut snowflakes: HashSet<u64> =
            (0..10).map(|_| generate(&gen, reading_at(1672531200001)).unwrap().get()).collect();
        for _ in 0..10 {
            snowflakes.insert(generate(&gen, reading_at(1672531200002)).unwrap().get());
        }
        assert_eq!(20, snowflakes.len());
    }
}

#[test]
fn generator_monotonic() {
    for generate in GENERATORS {
        let gen = SimpleSnowflakeGenerator::default();
        let mut snowflakes: Vec<SimpleSnowflake> =
            (0..10).map(|_| generate(&gen, reading_at(1672531200001)).unwrap()).collect();
        for _ in 0..10 {
            snowflakes.push(generate(&gen, reading_at(1672531200002)).unwrap());
        }
        for pair in snowflakes.windows(2) {
            assert!(pair[0] < pair[1]);
        }
        assert_eq!(1, snowflakes[0].get_timestamp_raw());
        assert_eq!(0, snowflakes[0].get_sequence_number());
        assert_eq!(9, snowflakes[9].get_sequence_number());
        assert_eq!(2, snowflakes[10].get_timestamp_raw());
        assert_eq!(0, snowflakes[10].get_sequence_number());
    }
}

#[test]
fn generator_snowflake_exhaustion() {
    for generate in GENERATORS {
        let gen = SimpleSnowflakeGenerator::default();
        for _ in 0..(1 << 12) {
            assert!(generate(&gen, reading_at(1672531200001)).is_ok());
        }
        assert_eq!(
            Error::SnowflakeExhaustion,
            generate(&gen, reading_at(1672531200001)).unwrap_err()
        );
        assert!(generate(&gen, reading_at(1672531200002)).is_ok());
    }
}

#[test]
fn generator_non_monotonic_clock() {
    for generate in GENERATORS {
        let gen = SimpleSnowflakeGenerator::default();
        let before = generate(&gen, reading_at(1672531200002)).unwrap();
        assert_eq!(
            Error::NonMonotonicClock,
            generate(&gen, reading_at(1672531200001)).expect_err("non-monotonic clock not detected")
        );
        let after = generate(&gen, reading_at(1672531200002)).unwrap();
        assert!(before < after);
        assert!(generate(&gen, reading_at(1672531200003)).is_ok());
    }
}

#[test]
fn generator_invalid_epoch() {
    for generate in GENERATORS {
        let gen = SimpleSnowflakeGenerator::default();
        assert_eq!(ElapsedTime::BeforeEpoch, reading_at(1672531199999));
        assert_eq!(Error::InvalidEpoch, generate(&gen, reading_at(1672531199999)).unwrap_err());
        assert_eq!(
            SimpleSnowflake::from_raw(1).unwrap(),
            generate(&gen, reading_at(1672531200000)).unwrap()
        );
        assert!(generate(&gen, reading_at(1672531200000)).is_ok());
    }
}

#[test]
fn generator_type_limits() {
    for generate in GENERATORS {
        let gen = SimpleSnowflakeGenerator::default();
        assert_eq!(
            Error::FatalSnowflakeExhaustion,
            generate(&gen, reading_at(1672531200000 + (1 << 51))).unwrap_err()
        );
        assert_eq!(
            Error::FatalSnowflakeExhaustion,
            generate(&gen, reading_at(u64::MAX)).unwrap_err()
        );
        let beyond = SimpleSnowflakeGenerator::elapsed_since_epoch(
            &(SystemTime::UNIX_EPOCH
                + Duration::from_millis(u64::MAX)
                + Duration::from_millis(1672531200001)),
        );
        assert_eq!(ElapsedTime::Millis(u64::MAX as u128 + 1), beyond);
        assert_eq!(Error::FatalSnowflakeExhaustion, generate(&gen, beyond).unwrap_err());
    }
}

#[test]
fn generator_shares_state_between_clones() {
    let gen = SimpleSnowflakeGenerator::default();
    let other = gen.clone();
    let first = gen.generate_lock_free_at(reading_at(1672531200005)).unwrap();
    let second = other.generate_lock_free_at(reading_at(1672531200005)).unwrap();
    assert!(first < second);
    assert_eq!(1, second.get_sequence_number());
}

#[test]
fn generator_real_clock() {
    let gen = SimpleSnowflakeGenerator::default();
    let first = gen.generate().unwrap();
    let second = gen.generate_lock_free().unwrap();
    assert!(first < second);
    let third = gen.generate_blocking().unwrap();
    let fourth = gen.generate_blocking().unwrap();
    assert!(third < fourth);
}

#[test]
fn next_snowflake_steps() {
    let last = 5 << 12 | 7;
    assert_eq!(Ok(5 << 12 | 8), SimpleSnowflakeGenerator::next_snowflake(last, 5));
    assert_eq!(Ok(6 << 12), SimpleSnowflakeGenerator::next_snowflake(last, 6));
    assert_eq!(Err(Error::NonMonotonicClock), SimpleSnowflakeGenerator::next_snowflake(last, 4));
    assert_eq!(
        Err(Error::SnowflakeExhaustion),
        SimpleSnowflakeGenerator::next_snowflake(5 << 12 | 4095, 5)
    );
}

#[test]
fn timestamps_from_readings() {
    type G = SimpleSnowflakeGenerator;
    assert_eq!(Ok(17), G::timestamp_from_elapsed(ElapsedTime::Millis(17)));
    assert_eq!(Err(Error::InvalidEpoch), G::timestamp_from_elapsed(ElapsedTime::BeforeEpoch));
    assert_eq!(
        Err(Error::FatalSnowflakeExhaustion),
        G::timestamp_from_elapsed(ElapsedTime::EpochUnrepresentable)
    );
    assert_eq!(
        Err(Error::FatalSnowflakeExhaustion),
        G::timestamp_from_elapsed(ElapsedTime::Millis(1 << 51))
    );
    assert_eq!(Ok((1 << 51) - 1), G::timestamp_from_elapsed(ElapsedTime::Millis((1 << 51) - 1)));
}

#[test]
fn readings_use_whole_milliseconds() {
    let epoch = SystemTime::UNIX_EPOCH + Duration::from_millis(1672531200000);
    assert_eq!(
        ElapsedTime::Millis(2),
        SimpleSnowflakeGenerator::elapsed_since_epoch(&(epoch + Duration::from_micros(2999)))
    );
    assert_eq!(
        ElapsedTime::Millis(0),
        SimpleSnowflakeGenerator::elapsed_since_epoch(&epoch)
    );
    assert_eq!(
        ElapsedTime::BeforeEpoch,
        SimpleSnowflakeGenerator::elapsed_since_epoch(&(epoch - Duration::from_micros(1)))
    );
    assert_eq!(
        ElapsedTime::BeforeEpoch,
        SimpleSnowflakeGenerator::elapsed_since_epoch(
            &(SystemTime::UNIX_EPOCH - Duration::from_millis(5))
        )
    );
}

#[test]
fn compare_exchange_outcomes() {
    type G = SimpleSnowflakeGenerator;
    assert_eq!(CasStep::Done(42), G::after_compare_exchange(Ok(41), 42, 0));
    assert_eq!(CasStep::Done(42), G::after_compare_exchange(Ok(41), 42, u64::MAX));
    assert_eq!(CasStep::Retry(50), G::after_compare_exchange(Err(50), 42, 3));
    assert_eq!(CasStep::GiveUp, G::after_compare_exchange(Err(50), 42, u64::MAX));
}

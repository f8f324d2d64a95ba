use snowdon::{ClassicLayout, Epoch, Error, Layout, MachineId, Snowflake, SnowflakeComparator};
use std::cmp::Ordering;
use std::time::{Duration, SystemTime};

#[derive(Debug)]
struct SimpleEpoch;

impl Epoch for SimpleEpoch {
    fn millis_since_unix() -> u64 {
        0
    }
}

const SECOND_SECOND: u64 = 1000;

#[derive(Debug)]
struct OtherEpoch;

impl Epoch for OtherEpoch {
    fn millis_since_unix() -> u64 {
        SECOND_SECOND
    }
}

#[derive(Debug)]
struct WideParams;

impl Layout for WideParams {
    fn construct_snowflake(timestamp: u64, sequence_number: u64) -> u64 {
        assert!(!Self::exceeds_timestamp(timestamp) && !Self::exceeds_sequence_number(sequence_number));
        timestamp << 32 | sequence_number
    }
    fn get_timestamp(input: u64) -> u64 {
        input >> 32
    }
    fn exceeds_timestamp(input: u64) -> bool {
        input > u32::MAX as u64
    }
    fn get_sequence_number(input: u64) -> u64 {
        input & u32::MAX as u64
    }
    fn exceeds_sequence_number(input: u64) -> bool {
        input > u32::MAX as u64
    }
    fn is_valid_snowflake(_input: u64) -> bool {
        true
    }
}

impl Epoch for WideParams {
    fn millis_since_unix() -> u64 {
        0
    }
}

type WideSnowflake = Snowflake<WideParams, WideParams>;

/// Checks that `x` compares above `less`, equal to `equal` and below `greater`.
fn check_partial_ord<A, B>(x: A, less: B, equal: B, greater: B)
where
    A: PartialOrd<B> + PartialEq<B> + Copy,
    B: Copy,
{
    assert!(x > less && x >= less && !(x < less) && !(x <= less) && x != less);
    assert!(x == equal && x >= equal && x <= equal && !(x < equal) && !(x > equal));
    assert!(x < greater && x <= greater && !(x > greater) && !(x >= greater) && x != greater);
    assert_eq!(Some(Ordering::Greater), x.partial_cmp(&less));
    assert_eq!(Some(Ordering::Equal), x.partial_cmp(&equal));
    assert_eq!(Some(Ordering::Less), x.partial_cmp(&greater));
}

/// Checks the total order of comparators around `x`.
fn check_ord(
    x: SnowflakeComparator,
    less: SnowflakeComparator,
    equal: SnowflakeComparator,
    greater: SnowflakeComparator,
) {
    assert_eq!(Ordering::Greater, x.cmp(&less));
    assert_eq!(Ordering::Equal, x.cmp(&equal));
    assert_eq!(Ordering::Less, x.cmp(&greater));
    assert_eq!(x, std::cmp::max(x, less));
    assert_eq!(less, std::cmp::min(x, less));
    assert_eq!(greater, std::cmp::max(x, greater));
}

fn verify_comparator(comparator: SnowflakeComparator, timestamp: u64) {
    assert!(timestamp > u64::MIN && timestamp < u64::MAX);

    let (less, equal, greater) = (
        SnowflakeComparator::from_raw_timestamp(timestamp - 1),
        SnowflakeComparator::from_raw_timestamp(timestamp),
        SnowflakeComparator::from_raw_timestamp(timestamp + 1),
    );
    check_partial_ord(comparator, less, equal, greater);
    check_ord(comparator, less, equal, greater);

    let (less, equal, greater) = (
        WideSnowflake::from_raw((timestamp - 1) << 32 | 3).unwrap(),
        WideSnowflake::from_raw(timestamp << 32 | 2).unwrap(),
        WideSnowflake::from_raw((timestamp + 1) << 32 | 1).unwrap(),
    );
    check_partial_ord(comparator, less, equal, greater);

    let snowflake = WideSnowflake::from_raw(timestamp << 32).unwrap();
    let (less, equal, greater) = (
        SnowflakeComparator::from_raw_timestamp(timestamp - 1),
        SnowflakeComparator::from_raw_timestamp(timestamp),
        SnowflakeComparator::from_raw_timestamp(timestamp + 1),
    );
    check_partial_ord(snowflake, less, equal, greater);
}

#[test]
fn from_system_time() {
    let comparator = SnowflakeComparator::from_system_time(
        SystemTime::UNIX_EPOCH + Duration::from_millis(SECOND_SECOND),
    )
    .unwrap();
    verify_comparator(comparator, SECOND_SECOND);

    assert_eq!(
        Error::InvalidEpoch,
        SnowflakeComparator::from_system_time(SystemTime::UNIX_EPOCH - Duration::from_millis(1))
            .unwrap_err(),
        "snowflake comparator didn't detect a \"negative\" timestamp"
    );
    assert_eq!(
        Error::FatalSnowflakeExhaustion,
        SnowflakeComparator::from_system_time(
            SystemTime::UNIX_EPOCH + Duration::from_millis(u64::MAX) + Duration::from_millis(1)
        )
        .unwrap_err(),
        "snowflake comparator accepted timestamp that exceeds its data type"
    );
}

#[test]
fn from_timestamp() {
    let comparator = SnowflakeComparator::from_timestamp::<SimpleEpoch>(SECOND_SECOND).unwrap();
    verify_comparator(comparator, SECOND_SECOND);

    let comparator = SnowflakeComparator::from_timestamp::<OtherEpoch>(SECOND_SECOND).unwrap();
    verify_comparator(comparator, SECOND_SECOND * 2);

    assert_eq!(
        Error::FatalSnowflakeExhaustion,
        SnowflakeComparator::from_timestamp::<OtherEpoch>(u64::MAX).unwrap_err()
    );
}

#[test]
fn from_raw_timestamp() {
    let comparator = SnowflakeComparator::from_raw_timestamp(SECOND_SECOND);
    verify_comparator(comparator, SECOND_SECOND);
}

#[derive(Debug)]
struct ExtremeParams;

impl Epoch for ExtremeParams {
    fn millis_since_unix() -> u64 {
        u64::MAX
    }
}

impl MachineId for ExtremeParams {
    fn machine_id() -> u64 {
        0
    }
}

#[test]
fn extreme_epoch() {
    type ExtremeSnowflake = Snowflake<ClassicLayout<ExtremeParams>, ExtremeParams>;
    let extreme = ExtremeSnowflake::from_raw((u64::MAX << 23) >> 1).unwrap();
    let (small_comparator, large_comparator) = (
        SnowflakeComparator::from_raw_timestamp(0),
        SnowflakeComparator::from_raw_timestamp(u64::MAX),
    );
    assert!(small_comparator < extreme);
    assert!(large_comparator < extreme);
    assert!(extreme > small_comparator);
    assert!(extreme > large_comparator);
    assert!(extreme != small_comparator && extreme != large_comparator);
    assert!(small_comparator != extreme && large_comparator != extreme);

    let extreme = ExtremeSnowflake::from_raw(1 << 22).unwrap();
    assert!(small_comparator < extreme);
    assert!(large_comparator < extreme);
    assert!(extreme > small_comparator);
    assert!(extreme > large_comparator);
    assert!(extreme != small_comparator && extreme != large_comparator);
    assert!(small_comparator != extreme && large_comparator != extreme);
}

#[test]
fn comparator_from_unix_millis() {
    assert_eq!(Error::InvalidEpoch, SnowflakeComparator::from_unix_millis(None).unwrap_err());
    assert_eq!(
        Error::FatalSnowflakeExhaustion,
        SnowflakeComparator::from_unix_millis(Some(u64::MAX as u128 + 1)).unwrap_err()
    );
    assert_eq!(
        SnowflakeComparator::from_raw_timestamp(u64::MAX),
        SnowflakeComparator::from_unix_millis(Some(u64::MAX as u128)).unwrap()
    );
    assert_eq!(
        SnowflakeComparator::from_raw_timestamp(42),
        SnowflakeComparator::from_unix_millis(Some(42)).unwrap()
    );
}

#[test]
fn comparator_matches_snowflake_time() {
    let snowflake = WideSnowflake::from_raw(7 << 32 | 9).unwrap();
    let time = snowflake.get_timestamp().unwrap();
    let comparator = SnowflakeComparator::from_system_time(time).unwrap();
    assert!(comparator == snowflake);
    assert_eq!(comparator, snowflake.get_comparator().unwrap());
    let before = SnowflakeComparator::from_system_time(SystemTime::UNIX_EPOCH).unwrap();
    assert!(before < snowflake);
}

#[test]
fn comparator_get() {
    assert_eq!(42, SnowflakeComparator::from_raw_timestamp(42).get());
    assert_eq!(
        SECOND_SECOND * 3,
        SnowflakeComparator::from_timestamp::<OtherEpoch>(SECOND_SECOND * 2).unwrap().get()
    );
}

#[derive(Debug)]
struct TwitterParams;

impl Epoch for TwitterParams {
    fn millis_since_unix() -> u64 {
        1288834974657
    }
}

impl MachineId for TwitterParams {
    fn machine_id() -> u64 {
        0
    }
}

#[test]
fn comparator_twitter_examples() {
    type TwitterSnowflake = Snowflake<ClassicLayout<TwitterParams>, TwitterParams>;
    let snowflake = TwitterSnowflake::from_raw(1541815603606036480).unwrap();
    let start_of_2022 =
        SnowflakeComparator::from_system_time(SystemTime::UNIX_EPOCH + Duration::from_secs(1640995200))
            .unwrap();
    assert!(start_of_2022 < snowflake);
    let start_of_2023 =
        SnowflakeComparator::from_system_time(SystemTime::UNIX_EPOCH + Duration::from_secs(1672531200))
            .unwrap();
    assert!(start_of_2023 > snowflake);
    let comparator =
        SnowflakeComparator::from_timestamp::<TwitterParams>(1541815603606036480 >> 22).unwrap();
    assert!(snowflake == comparator);
    assert_eq!(comparator, snowflake.get_comparator().unwrap());
    let comparator = SnowflakeComparator::from_timestamp::<TwitterParams>(352160225343).unwrap();
    assert!(comparator < snowflake);
}

#[test]
fn comparator_from_system_time_whole_millis() {
    let time = SystemTime::UNIX_EPOCH + Duration::from_micros(1500);
    assert_eq!(
        SnowflakeComparator::from_raw_timestamp(1),
        SnowflakeComparator::from_system_time(time).unwrap()
    );
    let later = SystemTime::UNIX_EPOCH + Duration::from_millis(77);
    assert_eq!(77, SnowflakeComparator::from_system_time(later).unwrap().get());
}

use serde_millis::{deserialize, serialize};
use time::Duration;

#[test]
fn signed_duration_counts_toward_zero() {
    assert_eq!(serialize(&Duration::nanoseconds(999_999)), Ok(0));
    assert_eq!(serialize(&Duration::nanoseconds(-999_999)), Ok(0));
    assert_eq!(serialize(&Duration::nanoseconds(1_000_000)), Ok(1));
    assert_eq!(serialize(&Duration::nanoseconds(-1_000_000)), Ok(-1));
    assert_eq!(serialize(&Duration::nanoseconds(-1_500_000)), Ok(-1));
    assert_eq!(serialize(&Duration::nanoseconds(-1_000_000_001)), Ok(-1000));
    assert_eq!(serialize(&Duration::new(-3, -999_999_999)), Ok(-3999));
}

#[test]
fn signed_duration_never_fails_to_encode() {
    assert_eq!(
        serialize(&Duration::max_value()),
        Ok(i64::MAX as i128 * 1000 + 999)
    );
    assert_eq!(
        serialize(&Duration::min_value()),
        Ok(i64::MIN as i128 * 1000 - 999)
    );
}

#[test]
fn signed_duration_count_goes_by_its_two_parts() {
    // Arithmetic that overflows the seconds leaves a duration whose two
    // parts are of different signs. Its count is still the seconds times
    // one thousand plus the nanoseconds divided by one million.
    let d: Duration = Duration::max_value() * 2i32;
    assert_eq!(d.whole_seconds(), -1);
    assert_eq!(d.subsec_nanoseconds(), 999_999_998);
    assert_eq!(serialize(&d), Ok(-1));

    let d: Duration = -Duration::min_value();
    assert_eq!(d.whole_seconds(), i64::MIN);
    assert_eq!(d.subsec_nanoseconds(), 999_999_999);
    assert_eq!(serialize(&d), Ok(i64::MIN as i128 * 1000 + 999));
}

#[test]
fn signed_duration_decodes_from_every_count() {
    assert_eq!(deserialize::<Duration>(0), Ok(Duration::zero()));
    assert_eq!(deserialize::<Duration>(-1002), Ok(Duration::new(-1, -2_000_000)));
    assert_eq!(deserialize::<Duration>(1002), Ok(Duration::new(1, 2_000_000)));
    assert_eq!(deserialize::<Duration>(-999), Ok(Duration::new(0, -999_000_000)));
    assert_eq!(
        deserialize::<Duration>(i64::MAX),
        Ok(Duration::new(9_223_372_036_854_775, 807_000_000))
    );
    assert_eq!(
        deserialize::<Duration>(i64::MIN),
        Ok(Duration::new(-9_223_372_036_854_775, -808_000_000))
    );
}

#[test]
fn decoded_signed_duration_has_parts_of_one_sign() {
    for source in [0i64, 1, -1, 999, -999, 1000, -1000, 1_234_567, -1_234_567, i64::MAX, i64::MIN] {
        let d: Duration = deserialize(source).unwrap();
        assert_eq!(d.whole_seconds(), source / 1000);
        assert_eq!(d.subsec_nanoseconds() as i64, (source % 1000) * 1_000_000);
        assert_eq!(d.whole_nanoseconds(), source as i128 * 1_000_000);
    }
}

#[test]
fn signed_duration_round_trip_loses_only_the_fraction() {
    let d = Duration::new(-7, -123_456_789);
    let wire = serialize(&d).unwrap();
    assert_eq!(wire, -7123);
    assert_eq!(
        deserialize::<Duration>(wire as i64),
        Ok(Duration::new(-7, -123_000_000))
    );
    let d = Duration::milliseconds(-86_400_000);
    let wire = serialize(&d).unwrap();
    assert_eq!(deserialize::<Duration>(wire as i64), Ok(d));
}

#[test]
fn count_of_the_longest_signed_duration_is_not_read_back() {
    let wire = serialize(&Duration::max_value()).unwrap();
    assert!(i64::try_from(wire).is_err());
    let wire = serialize(&Duration::min_value()).unwrap();
    assert!(i64::try_from(wire).is_err());
}

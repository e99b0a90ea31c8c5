use serde_millis::anchor::{instant_from_millis_at, instant_or_out_of_range, instant_to_millis_at};
use serde_millis::{deserialize, serialize, RangeError};
use std::time::{Duration, Instant, SystemTime, UNIX_EPOCH};

#[test]
fn instant_ahead_of_now_lands_after_the_wall_clock() {
    let mono_now = Instant::now();
    let wall_now = UNIX_EPOCH + Duration::from_secs(1000);
    let target = mono_now + Duration::from_secs(5);
    assert_eq!(instant_to_millis_at(&target, &mono_now, &wall_now), Ok(1_005_000));
}

#[test]
fn instant_behind_now_lands_before_the_wall_clock() {
    let target = Instant::now();
    let mono_now = target + Duration::from_secs(5);
    let wall_now = UNIX_EPOCH + Duration::from_secs(1000);
    assert_eq!(instant_to_millis_at(&target, &mono_now, &wall_now), Ok(995_000));
}

#[test]
fn instant_at_now_lands_on_the_wall_clock() {
    let mono_now = Instant::now();
    let wall_now = UNIX_EPOCH + Duration::new(1000, 999_999);
    assert_eq!(instant_to_millis_at(&mono_now, &mono_now, &wall_now), Ok(1_000_000));
}

#[test]
fn instant_encoding_drops_what_is_below_one_millisecond() {
    let mono_now = Instant::now();
    let wall_now = UNIX_EPOCH + Duration::new(1, 600_000);
    let target = mono_now + Duration::new(0, 900_000);
    assert_eq!(instant_to_millis_at(&target, &mono_now, &wall_now), Ok(1001));
    let target = mono_now + Duration::new(0, 399_999);
    assert_eq!(instant_to_millis_at(&target, &mono_now, &wall_now), Ok(1000));
}

#[test]
fn instant_that_lands_before_the_epoch_does_not_encode() {
    let target = Instant::now();
    let mono_now = target + Duration::from_secs(2000);
    let wall_now = UNIX_EPOCH + Duration::from_secs(1000);
    assert_eq!(
        instant_to_millis_at(&target, &mono_now, &wall_now),
        Err(RangeError::InvalidSystemTime)
    );
    let mono_now = target + Duration::new(1000, 1);
    assert_eq!(
        instant_to_millis_at(&target, &mono_now, &wall_now),
        Err(RangeError::InvalidSystemTime)
    );
    let mono_now = target + Duration::new(1000, 0);
    assert_eq!(instant_to_millis_at(&target, &mono_now, &wall_now), Ok(0));
}

#[test]
fn instant_encodes_against_a_wall_clock_before_the_epoch() {
    let mono_now = Instant::now();
    let wall_now = UNIX_EPOCH - Duration::from_secs(1);
    let target = mono_now + Duration::from_secs(3);
    assert_eq!(instant_to_millis_at(&target, &mono_now, &wall_now), Ok(2000));
    let target = mono_now + Duration::from_millis(500);
    assert_eq!(
        instant_to_millis_at(&target, &mono_now, &wall_now),
        Err(RangeError::InvalidSystemTime)
    );
}

#[test]
fn instant_too_far_ahead_is_out_of_range() {
    let target = Instant::now();
    let mono_now = target;
    let wall_now = UNIX_EPOCH + Duration::new(18_446_744_073_709_551, 616_000_000);
    assert_eq!(
        instant_to_millis_at(&target, &mono_now, &wall_now),
        Err(RangeError::DurationOutOfRange)
    );
}

#[test]
fn count_after_the_wall_clock_decodes_ahead_of_now() {
    let mono_now = Instant::now();
    let wall_now = UNIX_EPOCH + Duration::from_secs(1);
    assert_eq!(
        instant_from_millis_at(2000, &mono_now, &wall_now),
        Ok(mono_now + Duration::from_secs(1))
    );
}

#[test]
fn count_before_the_wall_clock_decodes_behind_now() {
    let mono_now = Instant::now() + Duration::from_secs(10);
    let wall_now = UNIX_EPOCH + Duration::from_secs(1);
    assert_eq!(
        instant_from_millis_at(500, &mono_now, &wall_now),
        Ok(mono_now - Duration::from_millis(500))
    );
    assert_eq!(instant_from_millis_at(1000, &mono_now, &wall_now), Ok(mono_now));
}

#[test]
fn instant_that_the_clock_type_cannot_hold_is_out_of_range() {
    assert_eq!(
        instant_or_out_of_range(None),
        Err(RangeError::InstantOutOfRange)
    );
    let now = Instant::now();
    assert_eq!(instant_or_out_of_range(Some(now)), Ok(now));
    assert_eq!(
        instant_or_out_of_range(now.checked_add(Duration::MAX)),
        Err(RangeError::InstantOutOfRange)
    );
}

#[test]
fn count_too_far_from_the_wall_clock_is_out_of_range() {
    let mono_now = Instant::now();
    let wall_now = UNIX_EPOCH - Duration::from_secs(i64::MAX as u64);
    assert_eq!(
        instant_from_millis_at(u64::MAX, &mono_now, &wall_now),
        Err(RangeError::InstantOutOfRange)
    );
}

#[test]
fn count_at_the_epoch_decodes_against_a_wall_clock_before_it() {
    let mono_now = Instant::now();
    let wall_now = UNIX_EPOCH - Duration::new(2, 500_000_000);
    assert_eq!(
        instant_from_millis_at(0, &mono_now, &wall_now),
        Ok(mono_now + Duration::new(2, 500_000_000))
    );
    assert_eq!(
        instant_from_millis_at(1500, &mono_now, &wall_now),
        Ok(mono_now + Duration::from_secs(4))
    );
}

#[test]
fn instant_survives_a_round_trip_against_fixed_clocks() {
    let mono_then = Instant::now();
    let wall_then = UNIX_EPOCH + Duration::from_secs(1_000_000);
    let target = mono_then + Duration::new(7, 250_400_000);
    let wire = instant_to_millis_at(&target, &mono_then, &wall_then).unwrap();
    assert_eq!(wire, 1_000_007_250);

    // Both clocks have advanced by three seconds: only the fraction is lost.
    let mono_now = mono_then + Duration::from_secs(3);
    let wall_now = wall_then + Duration::from_secs(3);
    assert_eq!(
        instant_from_millis_at(wire, &mono_now, &wall_now),
        Ok(mono_then + Duration::new(7, 250_000_000))
    );

    // The wall clock has advanced one second less: the instant comes back
    // one second late.
    let wall_now = wall_then + Duration::from_secs(2);
    assert_eq!(
        instant_from_millis_at(wire, &mono_now, &wall_now),
        Ok(mono_then + Duration::new(8, 250_000_000))
    );
}

#[test]
fn time_decodes_as_an_instant_at_the_same_distance_from_now() {
    let t = UNIX_EPOCH + Duration::new(10, 700_000);
    let wire = serialize(&Some(t)).unwrap();
    assert_eq!(wire, Some(10_000));
    let mono_now = Instant::now();
    let wall_now = UNIX_EPOCH + Duration::from_secs(4);
    assert_eq!(
        instant_from_millis_at(wire.unwrap(), &mono_now, &wall_now),
        Ok(mono_now + Duration::from_secs(6))
    );
}

#[test]
fn instant_decodes_as_a_time_at_the_same_distance_from_now() {
    let mono_now = Instant::now();
    let wall_now = UNIX_EPOCH + Duration::from_secs(50);
    let target = mono_now + Duration::new(2, 300_999);
    let wire = instant_to_millis_at(&target, &mono_now, &wall_now).unwrap();
    assert_eq!(
        deserialize::<Option<SystemTime>>(Some(wire)),
        Ok(Some(UNIX_EPOCH + Duration::from_secs(52)))
    );
}

#[test]
fn instant_round_trip_stays_within_the_time_it_took() {
    let early = Instant::now();
    let target = Instant::now();
    let wire = serialize(&target).unwrap();
    let back: Instant = deserialize(wire).unwrap();
    let late = Instant::now();
    assert!(back >= early - Duration::from_millis(2));
    assert!(back <= late + Duration::from_millis(2));
}

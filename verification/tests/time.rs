use audiocloud::instance::{DesiredInstancePowerState, InstancePowerState, PlayId, RenderId};
use audiocloud::time::{
    now, timestamp_from_clock, Span, TimeRange, Timestamp, Timestamped, TIMESTAMP_MAX_SECS,
    TIMESTAMP_MIN_SECS,
};
use chrono::{DateTime, Utc};

fn ts(secs: i64, nanos: u32) -> Timestamp {
    Timestamp::from_parts(secs, nanos).unwrap()
}

#[test]
fn timestamp_bounds_agree_with_chrono() {
    assert_eq!(TIMESTAMP_MIN_SECS, DateTime::<Utc>::MIN_UTC.timestamp());
    assert_eq!(TIMESTAMP_MAX_SECS, DateTime::<Utc>::MAX_UTC.timestamp());
    assert!(Timestamp::from_parts(TIMESTAMP_MIN_SECS, 0).is_some());
    assert!(Timestamp::from_parts(TIMESTAMP_MAX_SECS, 999_999_999).is_some());
    assert!(Timestamp::from_parts(TIMESTAMP_MIN_SECS - 1, 0).is_none());
    assert!(Timestamp::from_parts(TIMESTAMP_MAX_SECS + 1, 0).is_none());
    assert!(Timestamp::from_parts(0, 1_000_000_000).is_none());
}

#[test]
fn timestamp_parts() {
    let t = ts(-5, 250);
    assert_eq!(t.secs(), -5);
    assert_eq!(t.subsec_nanos(), 250);
    assert_eq!(Timestamp::epoch(), ts(0, 0));
}

#[test]
fn timestamp_ordering() {
    assert!(ts(1, 0).is_before(&ts(1, 1)));
    assert!(ts(-1, 999_999_999).is_before(&ts(0, 0)));
    assert!(!ts(2, 0).is_before(&ts(2, 0)));
    assert!(!ts(3, 0).is_before(&ts(2, 999_999_999)));
}

#[test]
fn span_milliseconds_round_trip() {
    for ms in [0i64, 1, 999, 1000, 1001, -1, -999, -1000, -1001, 123_456_789, i64::MAX, i64::MIN + 1] {
        assert_eq!(Span::milliseconds(ms).num_milliseconds(), ms);
    }
}

#[test]
fn span_between_instants_rounds_toward_zero() {
    assert_eq!(ts(0, 1_500_000).since(ts(0, 0)).num_milliseconds(), 1);
    assert_eq!(ts(0, 0).since(ts(0, 1_500_000)).num_milliseconds(), -1);
    assert_eq!(ts(10, 0).since(ts(7, 999_000_000)).num_milliseconds(), 2001);
    assert_eq!(ts(7, 999_000_000).since(ts(10, 0)).num_milliseconds(), -2001);
}

#[test]
fn add_span_moves_the_instant() {
    assert_eq!(ts(1, 600_000_000).add_span(Span::milliseconds(500)), ts(2, 100_000_000));
    assert_eq!(ts(1, 100_000_000).add_span(Span::milliseconds(-200)), ts(0, 900_000_000));
    assert_eq!(ts(0, 0).add_span(Span::milliseconds(-1)), ts(-1, 999_000_000));
}

#[test]
fn time_range_operations() {
    let r = TimeRange::new(ts(10, 0), ts(20, 0));
    assert!(r.valid());
    assert!(!TimeRange::new(ts(20, 0), ts(20, 0)).valid());
    assert_eq!(r.len().num_milliseconds(), 10_000);
    assert!(r.contains(ts(10, 0)));
    assert!(r.contains(ts(20, 0)));
    assert!(!r.contains(ts(20, 1)));
    assert!(!r.contains(ts(9, 999_999_999)));
    assert!(r.intersects(&TimeRange::new(ts(19, 0), ts(30, 0))));
    assert!(!r.intersects(&TimeRange::new(ts(20, 0), ts(30, 0))));
    assert!(!r.intersects(&TimeRange::new(ts(0, 0), ts(10, 0))));
    let shifted = r.shifted(Span::milliseconds(-5000));
    assert_eq!(shifted, TimeRange::new(ts(5, 0), ts(15, 0)));
    let with_len = TimeRange::new_with_length(ts(1, 0), Span::milliseconds(2500));
    assert_eq!(with_len, TimeRange::new(ts(1, 0), ts(3, 500_000_000)));
}

#[test]
fn range_around_now_contains_now() {
    let t = now();
    let r = TimeRange::new(
        t.add_span(Span::milliseconds(-60_000)),
        t.add_span(Span::milliseconds(60_000)),
    );
    assert!(r.contains_now());
    let chrono_now = Utc::now().timestamp();
    assert!((t.secs() - chrono_now).abs() < 60);
}

#[test]
fn timestamped_values() {
    let mut s = Timestamped::with_timestamp(ts(5, 0), 7u32);
    assert_eq!(s.timestamp(), ts(5, 0));
    assert_eq!(*s.get_ref(), 7);
    *s.get_mut() = 8;
    assert_eq!(s.value_copied(), 8);
    assert_eq!(s.value_cloned(), 8);
    assert_eq!(s.elapsed_at(ts(6, 0)).num_milliseconds(), 1000);
    assert!(!s.set_timestamp_if_newer(ts(4, 0)));
    assert_eq!(s.timestamp(), ts(5, 0));
    assert!(s.set_timestamp_if_newer(ts(6, 0)));
    assert_eq!(s.timestamp(), ts(6, 0));
    assert!(!s.set_timestamp_if_newer(ts(6, 0)));
    assert_eq!(s.into_inner(), 8);
}

#[test]
fn timestamped_epoch_and_presence() {
    let e = Timestamped::new_with_epoch(Some(1u8));
    assert_eq!(e.timestamp(), Timestamp::epoch());
    assert!(e.is_present());
    assert!(!Timestamped::new_with_epoch(None::<u8>).is_present());
    let mut n = Timestamped::new(3u8);
    assert!(n.elapsed().num_milliseconds() >= 0);
    let before = n.timestamp();
    n.reset_to_now();
    assert!(!n.timestamp().is_before(&before));
    assert_eq!(n.into_inner(), 3);
}

#[test]
fn power_states() {
    assert_eq!(InstancePowerState::from_bool(true), InstancePowerState::PoweredUp);
    assert_eq!(InstancePowerState::from_bool(false), InstancePowerState::ShutDown);
    assert!(InstancePowerState::PoweredUp.satisfies(DesiredInstancePowerState::PoweredUp));
    assert!(InstancePowerState::ShutDown.satisfies(DesiredInstancePowerState::ShutDown));
    assert!(!InstancePowerState::PoweringUp.satisfies(DesiredInstancePowerState::PoweredUp));
    assert!(!InstancePowerState::ShuttingDown.satisfies(DesiredInstancePowerState::ShutDown));
    assert!(!InstancePowerState::PoweredUp.satisfies(DesiredInstancePowerState::ShutDown));
    assert!(InstancePowerState::PoweredUp.is_powered_on());
    assert!(!InstancePowerState::PoweringUp.is_powered_on());
    assert!(DesiredInstancePowerState::PoweredUp.to_bool());
    assert!(!DesiredInstancePowerState::ShutDown.to_bool());
    for power in [true, false] {
        let desired = if power {
            DesiredInstancePowerState::PoweredUp
        } else {
            DesiredInstancePowerState::ShutDown
        };
        assert!(InstancePowerState::from_bool(power).satisfies(desired));
    }
}

#[test]
fn play_and_render_ids() {
    assert_eq!(PlayId::new(42).into_inner(), 42);
    assert_eq!(RenderId::new(7).into_inner(), 7);
}

#[test]
fn timestamped_default_holds_default_value() {
    let d: Timestamped<u8> = Timestamped::default();
    assert_eq!(d.into_inner(), 0);
}

#[test]
fn clock_readings_become_timestamps() {
    use_clock_readings();
}

fn use_clock_readings() {
    assert_eq!(timestamp_from_clock(Ok((0, 0))), Timestamp::epoch());
    assert_eq!(timestamp_from_clock(Ok((1, 1_500_000_000))), ts(2, 500_000_000));
    assert_eq!(timestamp_from_clock(Err((5, 0))), ts(-5, 0));
    assert_eq!(timestamp_from_clock(Err((1, 500_000_000))), ts(-2, 500_000_000));
    assert_eq!(timestamp_from_clock(Ok((u64::MAX, 0))), ts(TIMESTAMP_MAX_SECS, 999_999_999));
    assert_eq!(timestamp_from_clock(Err((u64::MAX, 7))), ts(TIMESTAMP_MIN_SECS, 0));
    assert_eq!(timestamp_from_clock(Err((-TIMESTAMP_MIN_SECS as u64, 0))), ts(TIMESTAMP_MIN_SECS, 0));
    assert_eq!(timestamp_from_clock(Err((-TIMESTAMP_MIN_SECS as u64, 1))), ts(TIMESTAMP_MIN_SECS, 0));
    assert_eq!(timestamp_from_clock(Err((-TIMESTAMP_MIN_SECS as u64 - 1, 1))), ts(TIMESTAMP_MIN_SECS, 999_999_999));
    assert_eq!(timestamp_from_clock(Ok((TIMESTAMP_MAX_SECS as u64, 1_000_000_000))), ts(TIMESTAMP_MAX_SECS, 999_999_999));
}

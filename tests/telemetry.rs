use roland::distance::DistanceEstimate;
use roland::message::{SerialData, ServerMessage, TrackSensorID};
use roland::telemetry::{apply_track, DistanceReading, Telemetry, Update};

#[test]
fn distance_mean_evicts_oldest() {
    let mut d = DistanceEstimate::new();
    assert_eq!(d.mean(), None);
    for v in [10, 20, 30, 40] {
        d.push(v);
    }
    assert_eq!(d.mean(), Some(25));
    d.push(50);
    assert_eq!(d.len(), 4);
    assert_eq!(d.mean(), Some(35));
}

#[test]
fn distance_mean_rounds_down() {
    let mut d = DistanceEstimate::new();
    d.push(10);
    d.push(11);
    assert_eq!(d.mean(), Some(10));
}

#[test]
fn distance_mean_of_largest_samples() {
    let mut d = DistanceEstimate::new();
    for _ in 0..6 {
        d.push(u16::MAX);
    }
    assert_eq!(d.mean(), Some(u16::MAX));
}

#[test]
fn track_bits_are_independent() {
    let mut t = Telemetry::new();
    assert_eq!(t.track(), [false; 4]);
    let u = t.apply(SerialData::TrackSensor((TrackSensorID::R1, true)), 0);
    assert_eq!(u, Update::Track([false, false, true, false]));
    let u = t.apply(SerialData::TrackSensor((TrackSensorID::L1, true)), 0);
    assert_eq!(u, Update::Track([true, false, true, false]));
    let u = t.apply(SerialData::TrackSensor((TrackSensorID::R1, false)), 0);
    assert_eq!(u, Update::Track([true, false, false, false]));
    assert_eq!(apply_track([true; 4], TrackSensorID::R2, false), [true, true, true, false]);
    assert_eq!(apply_track([false; 4], TrackSensorID::L2, true), [false, true, false, false]);
}

#[test]
fn missing_distance_keeps_history() {
    let mut t = Telemetry::new();
    let u = t.apply(SerialData::UltraSensor(Some(10)), 1000);
    assert_eq!(u, Update::Ultra(DistanceReading { mean: Some(10), sampled_at_ms: 1000 }));
    let u = t.apply(SerialData::UltraSensor(None), 1050);
    assert_eq!(u, Update::Ultra(DistanceReading { mean: None, sampled_at_ms: 1000 }));
    let u = t.apply(SerialData::UltraSensor(Some(20)), 1100);
    assert_eq!(u, Update::Ultra(DistanceReading { mean: Some(15), sampled_at_ms: 1100 }));
}

#[test]
fn stale_reading_is_dropped() {
    let r = DistanceReading { mean: Some(30), sampled_at_ms: 1000 };
    assert_eq!(r.fresh(1000), Some(30));
    assert_eq!(r.fresh(1100), Some(30));
    assert_eq!(r.fresh(1101), None);
    assert_eq!(r.fresh(500), Some(30));
}

#[test]
fn updates_become_server_messages() {
    let u = Update::Ultra(DistanceReading { mean: Some(42), sampled_at_ms: 10 });
    assert_eq!(u.to_server_message(60), ServerMessage::Ultra { ultra: Some(42) });
    assert_eq!(u.to_server_message(200), ServerMessage::Ultra { ultra: None });
    let u = Update::Track([true, false, false, true]);
    assert_eq!(u.to_server_message(0), ServerMessage::Track { track: [true, false, false, true] });
}

#[test]
fn track_sensor_index() {
    assert_eq!(TrackSensorID::L1.index(), 0);
    assert_eq!(TrackSensorID::L2.index(), 1);
    assert_eq!(TrackSensorID::R1.index(), 2);
    assert_eq!(TrackSensorID::R2.index(), 3);
}

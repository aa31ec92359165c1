use std::time::{Duration, SystemTime};

use sensor_pipeline::processor::{Smoothed, FORCE_LIMIT, POSITION_LIMIT, TEMP_LIMIT, WINDOW};
use sensor_pipeline::types::{AnomalyType, Feedback, SensorPacket, SensorProcessor};

fn packet(secs: u64, force: f32, position: f32, temperature: f32) -> SensorPacket {
    SensorPacket {
        timestamp: SystemTime::UNIX_EPOCH + Duration::from_secs(secs),
        force: force.to_bits(),
        position: position.to_bits(),
        temperature: temperature.to_bits(),
    }
}

fn floats(buffer: &std::collections::VecDeque<u32>) -> Vec<f32> {
    buffer.iter().map(|b| f32::from_bits(*b)).collect()
}

#[test]
fn limits_are_the_documented_values() {
    assert_eq!(f32::from_bits(FORCE_LIMIT), 15.0);
    assert_eq!(f32::from_bits(TEMP_LIMIT), 30.0);
    assert_eq!(f32::from_bits(POSITION_LIMIT), 2.0);
    assert_eq!(WINDOW, 5);
}

#[test]
fn new_processor_has_empty_windows() {
    let p = SensorProcessor::new();
    assert!(p.force_buffer.is_empty());
    assert!(p.temp_buffer.is_empty());
    assert!(p.pos_buffer.is_empty());
}

#[test]
fn clean_packet_is_smoothed_with_its_timestamp() {
    let mut p = SensorProcessor::new();
    let pk = packet(7, 10.0, 1.0, 25.0);
    let (smoothed, anomalies) = p.process(&pk);
    assert!(anomalies.is_empty());
    match smoothed {
        Smoothed::WindowMeans(t) => assert_eq!(t, pk.timestamp),
        Smoothed::Raw(_) => panic!("a clean packet is smoothed"),
    }
    assert_eq!(floats(&p.force_buffer), vec![10.0]);
    assert_eq!(floats(&p.pos_buffer), vec![1.0]);
    assert_eq!(floats(&p.temp_buffer), vec![25.0]);
}

#[test]
fn force_spike_passes_packet_through() {
    let mut p = SensorProcessor::new();
    let pk = packet(1, 16.0, 1.0, 25.0);
    let (smoothed, anomalies) = p.process(&pk);
    assert_eq!(anomalies.len(), 1);
    assert_eq!(anomalies[0].anomaly, AnomalyType::ForceSpike);
    assert_eq!(anomalies[0].packet.force, pk.force);
    match smoothed {
        Smoothed::Raw(q) => {
            assert_eq!(q.force, pk.force);
            assert_eq!(q.position, pk.position);
            assert_eq!(q.temperature, pk.temperature);
            assert_eq!(q.timestamp, pk.timestamp);
        }
        Smoothed::WindowMeans(_) => panic!("an anomalous packet passes through"),
    }
    assert_eq!(floats(&p.force_buffer), vec![16.0]);
}

#[test]
fn all_three_anomalies_in_order() {
    let mut p = SensorProcessor::new();
    let (_, anomalies) = p.process(&packet(1, 20.0, 3.0, 35.0));
    let kinds: Vec<AnomalyType> = anomalies.iter().map(|r| r.anomaly).collect();
    assert_eq!(kinds, vec![AnomalyType::ForceSpike, AnomalyType::TempSpike, AnomalyType::PositionalError]);
}

#[test]
fn temperature_and_position_anomalies() {
    let mut p = SensorProcessor::new();
    let (_, a) = p.process(&packet(1, 10.0, 1.0, 30.5));
    assert_eq!(a.len(), 1);
    assert_eq!(a[0].anomaly, AnomalyType::TempSpike);
    let (_, b) = p.process(&packet(2, 10.0, 2.5, 25.0));
    assert_eq!(b.len(), 1);
    assert_eq!(b[0].anomaly, AnomalyType::PositionalError);
}

#[test]
fn readings_at_the_limit_are_not_anomalies() {
    let mut p = SensorProcessor::new();
    let (smoothed, anomalies) = p.process(&packet(1, 15.0, 2.0, 30.0));
    assert!(anomalies.is_empty());
    assert!(matches!(smoothed, Smoothed::WindowMeans(_)));
}

#[test]
fn nan_readings_are_not_anomalies() {
    let mut p = SensorProcessor::new();
    let (_, anomalies) = p.process(&packet(1, f32::NAN, f32::NAN, f32::NAN));
    assert!(anomalies.is_empty());
}

#[test]
fn infinite_readings_are_anomalies() {
    let mut p = SensorProcessor::new();
    let (_, anomalies) = p.process(&packet(1, f32::INFINITY, f32::NEG_INFINITY, 25.0));
    assert_eq!(anomalies.len(), 1);
    assert_eq!(anomalies[0].anomaly, AnomalyType::ForceSpike);
}

#[test]
fn windows_keep_the_latest_five_readings() {
    let mut p = SensorProcessor::new();
    for i in 1..=7 {
        let v = i as f32;
        p.process(&packet(i, v, v / 10.0, 20.0 + v));
        assert!(p.force_buffer.len() <= WINDOW);
    }
    assert_eq!(floats(&p.force_buffer), vec![3.0, 4.0, 5.0, 6.0, 7.0]);
    assert_eq!(floats(&p.pos_buffer), vec![0.3, 0.4, 0.5, 0.6, 0.7]);
    assert_eq!(floats(&p.temp_buffer), vec![23.0, 24.0, 25.0, 26.0, 27.0]);
}

#[test]
fn advance_window_grows_then_slides() {
    let mut w = std::collections::VecDeque::new();
    for v in 0..5u32 {
        SensorProcessor::advance_window(&mut w, v);
    }
    assert_eq!(w.iter().copied().collect::<Vec<u32>>(), vec![0, 1, 2, 3, 4]);
    SensorProcessor::advance_window(&mut w, 9);
    assert_eq!(w.iter().copied().collect::<Vec<u32>>(), vec![1, 2, 3, 4, 9]);
}

#[test]
fn overfull_window_only_grows() {
    let mut w: std::collections::VecDeque<u32> = (0..7u32).collect();
    SensorProcessor::advance_window(&mut w, 9);
    assert_eq!(w.len(), 8);
    assert_eq!(*w.back().unwrap(), 9);
}

#[test]
fn feedback_holds_a_limit() {
    let f = Feedback::UpdateForceThreshold(12.5f32.to_bits());
    assert_eq!(f, Feedback::UpdateForceThreshold(12.5f32.to_bits()));
    assert_ne!(f, Feedback::UpdateTempThreshold(12.5f32.to_bits()));
    let g = Feedback::UpdatePosThreshold(1.0f32.to_bits());
    assert!(matches!(g, Feedback::UpdatePosThreshold(b) if f32::from_bits(b) == 1.0));
}

use sensor_pipeline::sensor::{pick_spike_channel, spike_channel, SpikeChannel, SPIKE_CHANNELS};

#[test]
fn rolls_select_channels() {
    assert_eq!(spike_channel(0), Some(SpikeChannel::Force));
    assert_eq!(spike_channel(1), Some(SpikeChannel::Temperature));
    assert_eq!(spike_channel(2), Some(SpikeChannel::Position));
    assert_eq!(spike_channel(3), None);
    assert_eq!(spike_channel(u32::MAX), None);
    assert_eq!(SPIKE_CHANNELS, 3);
}

#[test]
fn picked_channels_cover_all_three() {
    let mut seen = [false; 3];
    for _ in 0..600 {
        match pick_spike_channel() {
            SpikeChannel::Force => seen[0] = true,
            SpikeChannel::Temperature => seen[1] = true,
            SpikeChannel::Position => seen[2] = true,
        }
    }
    assert_eq!(seen, [true, true, true]);
}

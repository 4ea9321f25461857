use bird_player::channels::{map_channels_to_device, ChannelPosition, DevicePosition};
use bird_player::engine::SinkFormat;
use bird_player::output::{
    apply_volume_and_pad, callback_fill, determine_buffer_size, OutputSink, WRITE_RETRY_LIMIT,
};

#[test]
fn buffer_size_follows_rate_and_channels() {
    // Two seconds at the baseline.
    assert_eq!(determine_buffer_size(44100, 2, false), 176_400);
    // Half as much again above 48 kHz.
    assert_eq!(determine_buffer_size(96000, 2, false), 576_000);
    // A quarter more beyond stereo.
    assert_eq!(determine_buffer_size(44100, 6, false), 661_500);
    // A quarter less on reliable schedulers.
    assert_eq!(determine_buffer_size(44100, 2, true), 132_300);
    // All three together.
    assert_eq!(determine_buffer_size(96000, 6, true), 1_620_000);
}

#[test]
fn volume_scales_and_pads_exactly() {
    let mut data = vec![1000, -999, 3, 77];
    apply_volume_and_pad(&mut data, 2, 250);
    assert_eq!(data, vec![250, -249, 0, 0]);

    // Unity volume leaves the read samples untouched.
    let mut data = vec![1234, -5678, 9];
    apply_volume_and_pad(&mut data, 3, 1000);
    assert_eq!(data, vec![1234, -5678, 9]);

    // Zero volume silences everything.
    let mut data = vec![1234, -5678];
    apply_volume_and_pad(&mut data, 2, 0);
    assert_eq!(data, vec![0, 0]);
}

#[test]
fn ring_overflow_drops_after_bounded_retries_and_warns_once() {
    // A one-hertz mono format gives a two-slot ring: easy to overflow.
    let format = SinkFormat { channels: 1, rate: 1 };
    let (mut sink, _consumer) = OutputSink::open(format, false, 0);
    let samples: Vec<i32> = (0..10).collect();

    let out = sink.write(&samples, 1000, 1000);
    assert_eq!(out.written, 2);
    assert_eq!(out.dropped, 8);
    assert_eq!(out.retries, WRITE_RETRY_LIMIT);
    assert!(out.warned);

    // Another overflow inside the rate-limit window logs nothing.
    let out = sink.write(&samples, 1000, 1100);
    assert!(out.dropped > 0);
    assert!(!out.warned);

    // Past the window, the warning fires again.
    let out = sink.write(&samples, 1000, 1700);
    assert!(out.dropped > 0);
    assert!(out.warned);
}

#[test]
fn callback_reads_scales_and_pads() {
    let format = SinkFormat { channels: 1, rate: 2 };
    let (mut sink, consumer) = OutputSink::open(format, false, 0);
    // Capacity is 2 * 20000 * 1 / 10000 = 4 samples.
    let out = sink.write(&vec![100, -100, 60, 7], 1000, 10);
    assert_eq!(out.written, 4);
    assert_eq!(out.dropped, 0);
    assert!(!out.warned);

    let mut buf = vec![0i32; 6];
    let got = callback_fill(&consumer, &mut buf, 500);
    assert_eq!(got, 4);
    assert_eq!(buf, vec![50, -50, 30, 3, 0, 0]);
}

#[test]
fn channel_layouts_map_to_device_positions() {
    // A single channel is mono.
    let mono = vec![ChannelPosition::FrontLeft];
    assert_eq!(map_channels_to_device(&mono), Some(vec![DevicePosition::Mono]));

    // Stereo maps position for position.
    let stereo = vec![ChannelPosition::FrontLeft, ChannelPosition::FrontRight];
    assert_eq!(
        map_channels_to_device(&stereo),
        Some(vec![DevicePosition::FrontLeft, DevicePosition::FrontRight])
    );

    // Surround with a low-frequency channel.
    let surround = vec![
        ChannelPosition::FrontLeft,
        ChannelPosition::FrontRight,
        ChannelPosition::FrontCentre,
        ChannelPosition::Lfe1,
        ChannelPosition::RearLeft,
        ChannelPosition::RearRight,
    ];
    assert_eq!(
        map_channels_to_device(&surround),
        Some(vec![
            DevicePosition::FrontLeft,
            DevicePosition::FrontRight,
            DevicePosition::FrontCenter,
            DevicePosition::Lfe,
            DevicePosition::RearLeft,
            DevicePosition::RearRight,
        ])
    );

    // A position the device cannot express refuses the whole layout.
    let odd = vec![ChannelPosition::FrontLeft, ChannelPosition::Lfe2];
    assert_eq!(map_channels_to_device(&odd), None);
}

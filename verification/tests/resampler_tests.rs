use bird_player::resampler::{
    interleave, max_output_frames, select_resampler_type, Resampler, ResamplerType,
};

fn planar(channels: usize, frames: usize, base: i32) -> Vec<Vec<i32>> {
    (0..channels)
        .map(|c| (0..frames).map(|i| base + (c * frames + i) as i32).collect())
        .collect()
}

#[test]
fn algorithm_choice_follows_the_ratio() {
    // 44.1 kHz to 48 kHz differs by under a quarter: the cheap pass.
    assert_eq!(select_resampler_type(44100, 48000), ResamplerType::Linear);
    assert_eq!(select_resampler_type(48000, 44100), ResamplerType::Linear);
    // Doubling the rate takes the high-quality pass.
    assert_eq!(select_resampler_type(44100, 96000), ResamplerType::HighQuality);
    assert_eq!(select_resampler_type(96000, 44100), ResamplerType::HighQuality);
    // The boundary itself is high quality: a quarter is not under a quarter.
    assert_eq!(select_resampler_type(40000, 50000), ResamplerType::HighQuality);
    assert_eq!(select_resampler_type(40000, 49999), ResamplerType::Linear);
}

#[test]
fn throughput_matches_the_rounded_ratio() {
    let mut r = Resampler::new(2, 44100, 48000, 1024);
    assert_eq!(r.rtype, ResamplerType::Linear);
    assert!(!r.ready());

    r.push_frames(&planar(2, 2500, 0));
    assert_eq!(r.queued_frames(), 2500);
    assert!(r.ready());

    // Each block's yield keeps the total at floor(consumed * 48000 / 44100).
    let (block, emitted) = r.take_block();
    assert_eq!(block.len(), 2);
    assert_eq!(block[0].len(), 1024);
    assert_eq!(emitted, 1024 * 48000 / 44100); // 1114
    assert_eq!(emitted, 1114);

    let (_, emitted) = r.take_block();
    assert_eq!(emitted, 2048 * 48000 / 44100 - 1114); // 2229 - 1114
    assert_eq!(emitted, 1115);
    assert!(!r.ready());
    assert_eq!(r.queued_frames(), 452);

    // Flush pads the partial tail to the block boundary with silence.
    let added = r.flush_pad();
    assert_eq!(added, 1024 - 452);
    assert_eq!(r.queued_frames(), 1024);
    let (block, emitted) = r.take_block();
    assert_eq!(block[0][451], 2499); // the last real sample of channel 0
    assert_eq!(block[0][452], 0); // and silence from there on
    assert_eq!(emitted, 3072 * 48000 / 44100 - 2229);
    assert_eq!(r.queued_frames(), 0);

    // Nothing decoded was lost: three blocks consumed 2500 real frames plus
    // 572 frames of silence, and the total output is within one block's
    // worth of floor(2500 * 48000 / 44100).
    let total_out = 3072u64 * 48000 / 44100; // 3343
    let nominal = 2500u64 * 48000 / 44100; // 2721
    let block_out = 1024u64 * 48000 / 44100; // 1114
    assert!(total_out <= nominal + block_out + 1);
    assert!(nominal <= total_out + block_out + 1);
}

#[test]
fn flush_of_empty_queues_does_nothing() {
    let mut r = Resampler::new(1, 48000, 44100, 512);
    assert_eq!(r.flush_pad(), 0);
    assert_eq!(r.queued_frames(), 0);
}

#[test]
fn interleaving_orders_frame_by_frame() {
    let planar = vec![vec![1, 2, 3], vec![10, 20, 30]];
    assert_eq!(interleave(&planar), vec![1, 10, 2, 20, 3, 30]);
    let mono = vec![vec![7, 8]];
    assert_eq!(interleave(&mono), vec![7, 8]);
}

#[test]
fn interleave_buffer_budget_has_a_tenth_of_margin() {
    assert_eq!(max_output_frames(1024, 44100, 48000), 1024 * 48000 * 11 / 441000);
    assert_eq!(max_output_frames(1024, 44100, 48000), 1226);
}

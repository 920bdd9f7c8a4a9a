//! The sound between the machine and the device.

use nes_core::audio::queue::{audio_channel, AudioProducer, CallbackState};
use nes_core::audio::{
    ring_capacity, target_fill, AudioShared, FrameClock, Playback, FADE_IN_SAMPLES, FRAME_NANOS,
    MAX_FILL_FACTOR, TARGET_LATENCY_MS,
};

const RATE: u32 = 48_000;

fn setup() -> (AudioShared, AudioProducer, CallbackState) {
    audio_channel(RATE)
}

fn push(shared: &mut AudioShared, sender: &mut AudioProducer, samples: &[f32]) -> usize {
    let bits: Vec<u32> = samples.iter().map(|s| s.to_bits()).collect();
    sender.push_samples(shared, &bits)
}

fn callback(shared: &mut AudioShared, device: &mut CallbackState, frames: usize) -> Vec<f32> {
    let mut data = vec![0.0f32; frames * 2];
    if !device.begin(shared) {
        return data;
    }
    let mut ran_dry = false;
    for frame in data.chunks_exact_mut(2) {
        let (sample, level) = device.next();
        ran_dry |= sample.is_none();
        let sample = f32::from_bits(sample.unwrap_or(0));
        frame.fill(sample * level as f32 / FADE_IN_SAMPLES as f32);
    }
    device.end(shared, ran_dry);
    data
}

fn prime(shared: &mut AudioShared, sender: &mut AudioProducer) {
    let n = shared.target_fill();
    push(shared, sender, &vec![0.5; n]);
}

#[test]
fn callback_waits_for_the_prebuffer_and_then_plays() {
    let (mut shared, mut sender, mut device) = setup();
    let half = shared.target_fill() / 2;
    push(&mut shared, &mut sender, &vec![0.5; half]);
    assert!(callback(&mut shared, &mut device, 256).iter().all(|s| *s == 0.0));
    assert_eq!(shared.underruns(), 0, "還沒開始播放就不算 underrun");

    prime(&mut shared, &mut sender);
    let out = callback(&mut shared, &mut device, 256);
    assert!(out.iter().any(|s| *s > 0.0), "累積夠了就開始播放");
    assert_eq!(out[0], out[1], "兩個聲道相同");
    assert!(out[0] < 0.01 && out[400] > out[10]);
}

#[test]
fn callback_counts_an_underrun_once_and_reprimes() {
    let (mut shared, mut sender, mut device) = setup();
    prime(&mut shared, &mut sender);
    for _ in 0..2 {
        callback(&mut shared, &mut device, 1000);
    }
    assert_eq!(shared.underruns(), 0);
    callback(&mut shared, &mut device, 1000);
    assert_eq!(shared.underruns(), 1);
    for _ in 0..5 {
        assert!(callback(&mut shared, &mut device, 1000).iter().all(|s| *s == 0.0));
    }
    assert_eq!(shared.underruns(), 1);
}

#[test]
fn pausing_silences_the_output_and_discards_leftover_samples() {
    let (mut shared, mut sender, mut device) = setup();
    prime(&mut shared, &mut sender);
    callback(&mut shared, &mut device, 64);
    assert!(device.slots() > 0);

    shared.set_paused(true);
    assert!(callback(&mut shared, &mut device, 512).iter().all(|s| *s == 0.0));
    assert_eq!(device.slots(), 0, "殘留取樣被丟掉");
    assert_eq!(shared.fill(), 0);

    shared.set_paused(false);
    push(&mut shared, &mut sender, &vec![0.25; 100]);
    assert!(callback(&mut shared, &mut device, 512).iter().all(|s| *s == 0.0));
    assert_eq!(shared.underruns(), 0, "暫停不算 underrun");
}

#[test]
fn flush_is_executed_by_the_callback_and_forces_a_reprime() {
    let (mut shared, mut sender, mut device) = setup();
    prime(&mut shared, &mut sender);
    callback(&mut shared, &mut device, 64);
    assert!(device.slots() > 0);

    shared.flush();
    assert!(callback(&mut shared, &mut device, 64).iter().all(|s| *s == 0.0));
    assert_eq!(device.slots(), 0);
    assert_eq!(shared.underruns(), 0);
    prime(&mut shared, &mut sender);
    assert!(callback(&mut shared, &mut device, 512).iter().any(|s| *s > 0.0));
}

#[test]
fn producer_drops_samples_beyond_the_latency_cap() {
    let (mut shared, mut sender, _device) = setup();
    let cap = shared.target_fill() * MAX_FILL_FACTOR;
    push(&mut shared, &mut sender, &vec![0.1; cap + 500]);
    assert_eq!(sender.fill(), cap);
    assert_eq!(shared.fill(), cap);
    assert_eq!(shared.dropped(), 500);
}

#[test]
fn disabled_output_ignores_everything() {
    let (mut shared, mut sender, _device) = audio_channel(0);
    assert!(!shared.is_active());
    push(&mut shared, &mut sender, &[0.5; 100]);
    assert_eq!(sender.fill(), 0);
    assert_eq!(shared.dropped(), 0);
    assert_eq!(shared.fill(), 0);
}

#[test]
fn samples_stay_in_order_when_the_ring_wraps_around() {
    let (mut shared, mut sender, mut device) = setup();
    let (mut next_in, mut next_out) = (0usize, 0usize);
    for round in 0..2_000usize {
        let n = 1 + (round * 37) % 900;
        let chunk: Vec<f32> = (next_in..next_in + n).map(|v| v as f32).collect();
        let before = sender.fill();
        push(&mut shared, &mut sender, &chunk);
        let accepted = sender.fill() - before;
        next_in += accepted;
        let take = 1 + (round * 53) % 700;
        for _ in 0..take {
            match device.next().0 {
                Some(v) => {
                    assert_eq!(f32::from_bits(v), next_out as f32);
                    next_out += 1;
                }
                None => break,
            }
        }
    }
    assert!(next_out > 100_000, "繞過尾端很多次（取出 {next_out}）");
}

#[test]
fn shared_fill_reflects_the_producer_and_the_callback() {
    let (mut shared, mut sender, mut device) = setup();
    assert_eq!(shared.fill(), 0);
    prime(&mut shared, &mut sender);
    assert_eq!(shared.fill(), shared.target_fill());
    let ms = shared.fill() as f64 * 1000.0 / f64::from(RATE);
    assert!((ms - f64::from(TARGET_LATENCY_MS)).abs() < 0.1);
    callback(&mut shared, &mut device, 100);
    assert_eq!(shared.fill(), shared.target_fill() - 100);
}

#[test]
fn a_queue_says_how_much_it_took() {
    let (mut shared, mut sender, mut device) = setup();
    assert_eq!(shared.capacity, 12_000);
    assert_eq!(push(&mut shared, &mut sender, &[0.25, 0.5]), 2);
    assert_eq!((sender.fill(), device.slots()), (2, 2));
    assert_eq!(device.next().0, Some(0.25f32.to_bits()));
    assert_eq!((sender.fill(), device.slots()), (1, 1));
    assert_eq!(push(&mut shared, &mut sender, &vec![0.0; 9_000]), 7_199);
    assert_eq!(shared.dropped(), 1_801);
    device.clear();
    assert_eq!((sender.fill(), device.slots()), (0, 0));
    assert_eq!(device.next().0, None);
}

#[test]
fn the_target_is_fifty_milliseconds_rounded() {
    for rate in [0u32, 1, 9, 10, 29, 30, 8_000, 11_025, 22_050, 44_100, 48_000, 192_000] {
        let exact = (f64::from(rate) * 50.0 / 1000.0).round() as usize;
        assert_eq!(target_fill(rate), exact, "{rate} Hz");
    }
    assert_eq!(target_fill(48_000), 2_400);
    assert_eq!(ring_capacity(48_000), 12_000);
    assert_eq!(ring_capacity(0), 1);
}

#[test]
fn a_full_buffer_takes_nothing_and_a_device_fades_in() {
    let shared = AudioShared::new(RATE, ring_capacity(RATE));
    assert_eq!(shared.accepts(7_199, 10), 1);
    assert_eq!(shared.accepts(7_200, 10), 0);
    assert_eq!(shared.accepts(9_000, 10), 0);
    assert_eq!(shared.accepts(0, 10), 10);

    let mut playback = Playback::new();
    assert_eq!(playback.fade_in(), 1);
    for _ in 0..600 {
        playback.fade_in();
    }
    assert_eq!(playback.fade_in(), FADE_IN_SAMPLES);
}

#[test]
fn the_clock_deals_out_whole_frames() {
    let mut clock = FrameClock::new();
    clock.pass(FRAME_NANOS - 1);
    assert!(!clock.take(FRAME_NANOS));
    clock.pass(2);
    assert!(clock.take(FRAME_NANOS));
    assert_eq!(clock.saved, 1);
    clock.pass(3 * FRAME_NANOS);
    let mut frames = 0;
    while clock.take(FRAME_NANOS) {
        frames += 1;
    }
    assert_eq!(frames, 3);
    clock.clear();
    assert_eq!(clock.saved, 0);
    assert_eq!(FRAME_NANOS, (1e9 / 60.0988) as u64);
}

//! Tests of the `Signal` sources and adaptors.

use dasp::ring_buffer;
use dasp::signal::{self, Branch, Signal, SignalExt};

#[test]
fn from_iter_yields_the_frames_then_equilibrium() {
    let frames = vec![[1i16], [-3], [5], [6]];
    let mut signal = signal::from_iter(frames);
    assert_eq!(signal.next(), [1]);
    assert_eq!(signal.next(), [-3]);
    assert_eq!(signal.next(), [5]);
    assert!(!signal.is_exhausted());
    assert_eq!(signal.next(), [6]);
    assert!(signal.is_exhausted());
    assert_eq!(signal.next(), [0]);
    let mut unsigned = signal::from_iter(vec![[3u8, 4]]);
    assert_eq!(unsigned.next(), [3, 4]);
    assert_eq!(unsigned.next(), [128, 128]);
}

#[test]
fn from_interleaved_samples_iter_drops_a_partial_frame() {
    let mut signal = signal::from_interleaved_samples_iter::<[i32; 2]>(vec![0, 1, 2, 3]);
    assert_eq!(signal.next(), [0, 1]);
    assert_eq!(signal.next(), [2, 3]);
    assert_eq!(signal.next(), [0, 0]);
    let mut signal = signal::from_interleaved_samples_iter::<[i32; 2]>(vec![0, 1, 2]);
    assert_eq!(signal.next(), [0, 1]);
    assert!(signal.is_exhausted());
    assert_eq!(signal.next(), [0, 0]);
}

#[test]
fn equilibrium_signal() {
    let mut silence = signal::equilibrium::<[u8; 2]>();
    assert_eq!(silence.next(), [128, 128]);
    assert_eq!(silence.next(), [128, 128]);
    assert!(!silence.is_exhausted());
}

#[test]
fn gen_map_and_zip_map() {
    let frames = signal::gen(|| [50i16]);
    let mut mapper = frames.map(|f: [i16; 1]| [f[0], 25]);
    assert_eq!(mapper.next(), [50, 25]);
    assert_eq!(mapper.next(), [50, 25]);
    let a = signal::gen(|| [50i16]);
    let b = signal::gen(|| [25i16]);
    let mut zipped = a.zip_map(b, |f: [i16; 1], o: [i16; 1]| [f[0], o[0]]);
    assert_eq!(zipped.next(), [50, 25]);
    let mut counter = 0i32;
    let mut generated = signal::gen_mut(move || {
        counter += 1;
        [counter]
    });
    assert_eq!(generated.next(), [1]);
}

#[test]
fn add_amp_sums_two_signals() {
    let a = signal::from_iter(vec![[20i16], [-60], [40]]);
    let b = signal::from_iter(vec![[20i16], [10], [-80]]);
    let mut added = a.add_amp(b).take(3);
    assert_eq!(added.next(), Some([40]));
    assert_eq!(added.next(), Some([-50]));
    assert_eq!(added.next(), Some([-40]));
    assert_eq!(added.next(), None);
}

#[test]
fn add_amp_is_exhausted_with_its_first_signal() {
    let a = signal::from_iter(vec![[1i32], [2]]);
    let b = signal::from_iter(vec![[1i32], [2], [3], [4]]);
    let mut added = a.add_amp(b);
    assert!(!added.is_exhausted());
    added.next();
    added.next();
    assert!(added.is_exhausted());
}

#[test]
fn offset_amp_and_offset_amp_per_channel() {
    let signal = signal::from_iter(vec![[25i16, 40], [-20, -50]]);
    let mut offset = signal.offset_amp(50);
    assert_eq!(offset.next(), [75, 90]);
    assert_eq!(offset.next(), [30, 0]);
    let signal = signal::from_iter(vec![[50i16, 30], [-25, 90]]);
    let mut offset = signal.offset_amp_per_channel([25, -50]);
    assert_eq!(offset.next(), [75, -20]);
    assert_eq!(offset.next(), [0, 40]);
}

#[test]
fn delay_yields_equilibrium_first() {
    let signal = signal::from_iter(vec![[2i8], [4]]);
    let mut delayed = signal.delay(2).take(4);
    assert_eq!(delayed.next(), Some([0]));
    assert_eq!(delayed.next(), Some([0]));
    assert_eq!(delayed.next(), Some([2]));
    assert_eq!(delayed.next(), Some([4]));
    assert_eq!(delayed.next(), None);
}

#[test]
fn into_interleaved_samples_yields_channel_by_channel() {
    let signal = signal::from_iter(vec![[1i16, 2], [3, 4]]);
    let mut samples = signal.into_interleaved_samples().into_iter();
    assert_eq!(samples.next(), Some(1));
    assert_eq!(samples.next(), Some(2));
    assert_eq!(samples.next(), Some(3));
    assert_eq!(samples.next(), Some(4));
    assert_eq!(samples.next(), Some(0));
}

#[test]
fn clip_amp_clips_both_ways() {
    let signal = signal::from_iter(vec![[12_000i16, 8_000], [-7_000, -14_000]]);
    let mut clipped = signal.clip_amp(9_000);
    assert_eq!(clipped.next(), [9_000, 8_000]);
    assert_eq!(clipped.next(), [-7_000, -9_000]);
    let signal = signal::from_iter(vec![[255u8, 0, 140]]);
    let mut clipped = signal.clip_amp(10);
    assert_eq!(clipped.next(), [138, 118, 138]);
}

#[test]
fn inspect_sees_every_frame() {
    let signal = signal::gen(|| [7i32]);
    let mut inspected = signal.inspect(|f: &[i32; 1]| assert_eq!(*f, [7]));
    assert_eq!(inspected.next(), [7]);
}

#[test]
fn take_and_until_exhausted() {
    let mut taken = signal::from_iter(vec![[1i16], [2], [3], [4]]).take(2);
    assert_eq!(taken.len(), 2);
    assert_eq!(taken.next(), Some([1]));
    assert_eq!(taken.size_hint(), (1, Some(1)));
    assert_eq!(taken.next(), Some([2]));
    assert_eq!(taken.next(), None);
    let mut until = signal::from_iter(vec![[1i16], [2]]).until_exhausted();
    assert_eq!(until.next(), Some([1]));
    assert_eq!(until.next(), Some([2]));
    assert_eq!(until.next(), None);
}

#[test]
fn by_ref_borrows_the_signal() {
    let mut signal = signal::from_iter(vec![[0i8], [1], [2], [3], [4]]);
    assert_eq!(signal.next(), [0]);
    {
        let mut borrowed = signal.by_ref().take(2);
        assert_eq!(borrowed.next(), Some([1]));
        assert_eq!(borrowed.next(), Some([2]));
    }
    assert_eq!(signal.next(), [3]);
    assert_eq!(signal.next(), [4]);
}

#[test]
fn buffered_yields_the_source_frames() {
    let signal = signal::from_iter(vec![[1i16], [2], [3], [4]]);
    let ring_buffer = ring_buffer::Bounded::from([[0i16; 1]; 2]);
    let mut buffered = signal.buffered(ring_buffer);
    assert_eq!(buffered.next(), [1]);
    assert_eq!(buffered.next(), [2]);
    assert_eq!(buffered.next(), [3]);
    assert_eq!(buffered.next(), [4]);
    assert_eq!(buffered.next(), [0]);
}

#[test]
fn buffered_yields_what_was_buffered_first() {
    let signal = signal::from_iter(vec![[1i16], [2], [3], [4]]);
    let ring_buffer = ring_buffer::Bounded::from_full([[8i16], [9]]);
    let mut buffered = signal.buffered(ring_buffer);
    assert_eq!(buffered.next(), [8]);
    assert_eq!(buffered.next(), [9]);
    assert_eq!(buffered.next(), [1]);
    assert_eq!(buffered.next(), [2]);
    assert_eq!(buffered.next(), [3]);
    assert_eq!(buffered.next(), [4]);
    assert_eq!(buffered.next(), [0]);
}

#[test]
fn next_frames_yields_a_batch() {
    let signal = signal::from_iter(vec![[1i16], [2], [3], [4]]);
    let ring_buffer = ring_buffer::Bounded::from([[0i16; 1]; 2]);
    let mut buffered = signal.buffered(ring_buffer);
    let mut batch = buffered.next_frames();
    assert_eq!(batch.next(), Some([1]));
    assert_eq!(batch.next(), Some([2]));
    assert_eq!(batch.next(), None);
    let mut batch = buffered.next_frames();
    assert_eq!(batch.next(), Some([3]));
    assert_eq!(batch.next(), Some([4]));
    assert_eq!(batch.next(), None);
    let (_, rb) = buffered.into_parts();
    assert_eq!(rb.len(), 0);
}

#[test]
fn fork_branches_see_the_same_frames() {
    let source = signal::from_iter((0..100i32).map(|i| [i]).collect::<Vec<_>>());
    let ring_buffer = ring_buffer::Bounded::from([[0i32; 1]; 4]);
    let mut fork = source.fork(ring_buffer);
    assert_eq!(fork.next(Branch::A), [0]);
    assert_eq!(fork.pending_frames(Branch::B), 1);
    assert_eq!(fork.pending_frames(Branch::A), 0);
    assert_eq!(fork.next(Branch::B), [0]);
    for i in 1..5 {
        assert_eq!(fork.next(Branch::A), [i]);
    }
    for i in 1..5 {
        assert_eq!(fork.next(Branch::B), [i]);
    }
    // A lagging branch misses the frames that overflow the buffer.
    for i in 5..11 {
        assert_eq!(fork.next(Branch::A), [i]);
    }
    assert_eq!(fork.next(Branch::B), [7]);
}

#[test]
fn bus_outputs_see_every_frame_from_when_they_were_sent() {
    let source = signal::from_iter(vec![[1i16], [2], [3], [4], [5]]);
    let mut bus = source.bus();
    let a = bus.send();
    let b = bus.send();
    assert_eq!(bus.next_frame(a), [1]);
    assert_eq!(bus.next_frame(a), [2]);
    assert_eq!(bus.pending_frames(b), 2);
    assert_eq!(bus.next_frame(b), [1]);
    let c = bus.send();
    assert_eq!(bus.next_frame(c), [3]);
    assert_eq!(bus.next_frame(b), [2]);
    assert_eq!(bus.next_frame(b), [3]);
    bus.drop_output(a);
    assert_eq!(bus.next_frame(b), [4]);
    assert_eq!(bus.next_frame(c), [4]);
    assert_eq!(bus.next_frame(c), [5]);
    assert!(bus.is_exhausted(c));
    assert!(!bus.is_exhausted(b));
}

#[test]
fn noise_values_follow_the_seed() {
    let mut noise = signal::noise(0);
    let first = noise.next_value();
    assert_eq!(first, 1_376_312_589 & 0x7fff_ffff);
    let second = noise.next_value();
    assert!(second < 0x8000_0000);
    assert_ne!(first, second);
}

#[test]
fn tap_and_tap_mut_yield_the_frames_unchanged() {
    let source = signal::from_iter(vec![[1i16], [2]]);
    let mut tapped = signal::tap(source, |f: &[i16; 1]| assert!(f[0] > 0));
    assert_eq!(tapped.next(), [1]);
    assert_eq!(tapped.next(), [2]);
    assert!(tapped.is_exhausted());
    let source = signal::from_iter(vec![[3i16]]);
    let mut seen = 0;
    {
        let mut tapped = signal::tap_mut(source, |f: &[i16; 1]| seen += f[0]);
        assert_eq!(tapped.next(), [3]);
    }
    assert_eq!(seen, 3);
}

#[test]
fn noise_seed_moves_on_by_one() {
    let mut noise = signal::noise(41);
    assert_eq!(noise.current_seed(), 41);
    noise.next_value();
    assert_eq!(noise.current_seed(), 42);
}

#[test]
fn bus_keys_are_fresh_and_each_output_sees_its_frames() {
    let source = signal::from_iter(vec![[1i32], [2], [3], [4], [5], [6]]);
    let mut bus = source.bus();
    let a = bus.send();
    let b = bus.send();
    assert_ne!(a, b);
    assert!(bus.contains_output(a) && bus.contains_output(b));
    let from_a: Vec<[i32; 1]> = (0..3).map(|_| bus.next_frame(a)).collect();
    let from_b: Vec<[i32; 1]> = (0..3).map(|_| bus.next_frame(b)).collect();
    assert_eq!(from_a, vec![[1], [2], [3]]);
    assert_eq!(from_b, vec![[1], [2], [3]]);
    let c = bus.send();
    assert!(c != a && c != b);
    for key in [c, b, a] {
        let frames: Vec<[i32; 1]> = (0..3).map(|_| bus.next_frame(key)).collect();
        assert_eq!(frames, vec![[4], [5], [6]]);
    }
    bus.drop_output(a);
    assert!(!bus.contains_output(a));
}

#[test]
fn from_iter_is_exhausted_after_its_last_frame() {
    let mut s = signal::from_iter(vec![[1i32], [-3], [5], [6]]);
    for expected in [[1], [-3], [5]] {
        assert_eq!(s.next(), expected);
        assert!(!s.is_exhausted());
    }
    assert_eq!(s.next(), [6]);
    assert!(s.is_exhausted());
    assert_eq!(s.next(), [0]);
    assert_eq!(s.next(), [0]);
}

#[test]
fn next_frames_refills_to_capacity_then_with_equilibrium() {
    let signal = signal::from_iter(vec![[1i32], [2], [3], [4]]);
    let mut buffered = signal.buffered(ring_buffer::Bounded::from([[0i32]; 2]));
    for expected in [vec![[1], [2]], vec![[3], [4]], vec![[0], [0]]] {
        let mut batch = buffered.next_frames();
        let mut got = Vec::new();
        while let Some(f) = batch.next() {
            got.push(f);
        }
        assert_eq!(got, expected);
    }
}

#[test]
fn gen_mut_calls_its_generator_once_per_frame() {
    let mut f = [0i32];
    let mut s = signal::gen_mut(move || {
        let r = f;
        f[0] += 10;
        r
    });
    assert_eq!(s.next(), [0]);
    assert_eq!(s.next(), [10]);
    assert_eq!(s.next(), [20]);
    assert!(!s.is_exhausted());
}

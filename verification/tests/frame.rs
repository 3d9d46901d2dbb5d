//! Tests of the `Frame` trait and its implementations.

use dasp::frame::{Frame, FrameChannels};
use dasp::Sample;

#[test]
fn equilibrium_frames() {
    let mono: [u8; 1] = Frame::equilibrium();
    assert_eq!(mono, [128]);
    let stereo: [i16; 2] = Frame::equilibrium();
    assert_eq!(stereo, [0, 0]);
    let three: [u16; 3] = Frame::equilibrium();
    assert_eq!(three, [32_768, 32_768, 32_768]);
    let scalar: u32 = Frame::equilibrium();
    assert_eq!(scalar, 2_147_483_648);
}

#[test]
fn channels_and_set_channel() {
    let mut frame = [1i32, 2, 3];
    assert_eq!(<[i32; 3] as Frame>::num_channels(), 3);
    assert_eq!(frame.channel(1), Some(&2));
    assert_eq!(frame.channel(3), None);
    assert!(frame.set_channel(2, 30));
    assert!(!frame.set_channel(3, 40));
    assert_eq!(frame, [1, 2, 30]);
    let mut channels = frame.channels();
    assert_eq!(channels.len(), 3);
    assert_eq!(channels.next(), Some(1));
    assert_eq!(channels.next(), Some(2));
    assert_eq!(channels.next(), Some(30));
    assert_eq!(channels.next(), None);
    let mut refs = frame.channels_ref();
    assert_eq!(refs.next(), Some(&1));
    assert_eq!(refs.len(), 2);
}

#[test]
fn a_sample_is_a_mono_frame() {
    let s = 5i16;
    assert_eq!(<i16 as Frame>::num_channels(), 1);
    assert_eq!(s.channel(0), Some(&5));
    assert_eq!(s.channel(1), None);
    assert_eq!(Frame::offset_amp(s, 3), 8);
}

#[test]
fn to_signed_frame_and_offset() {
    let frame = [0u8, 255, 128];
    assert_eq!(frame.to_signed_frame(), [-128i8, 127, 0]);
    assert_eq!(frame.add_amp([1i8, -1, 10]), [1u8, 254, 138]);
    assert_eq!([1u8, 254, 128].offset_amp(-1), [0u8, 253, 127]);
}

#[test]
fn readme_frame_conversion() {
    let foo = [0i16, 0];
    let bar: [u8; 2] = [foo[0].to_sample(), foo[1].to_sample()];
    assert_eq!(bar, [128u8, 128]);
}

#[test]
fn channel_mut_writes_into_the_frame() {
    let mut frame = [1u16, 2];
    if let Some(s) = frame.channel_mut(1) {
        *s = 20;
    }
    assert!(frame.channel_mut(2).is_none());
    assert_eq!(frame, [1, 20]);
    let mut scalar = 4i8;
    *scalar.channel_mut(0).unwrap() = -4;
    assert_eq!(scalar, -4);
}

#[test]
fn channels_mut_writes_each_channel() {
    let mut frame = [1i16, 2, 3];
    {
        let mut channels = frame.channels_mut();
        assert_eq!(channels.len(), 3);
        *channels.next().unwrap() = 10;
        *channels.next_back().unwrap() = 30;
        assert_eq!(channels.len(), 1);
        *channels.next().unwrap() += 18;
        assert!(channels.next().is_none());
        assert!(channels.next_back().is_none());
    }
    assert_eq!(frame, [10, 20, 30]);
    let mut scalar = 7u8;
    {
        let mut channels = scalar.channels_mut();
        assert_eq!(channels.len(), 1);
        *channels.next().unwrap() = 9;
        assert!(channels.next().is_none());
    }
    assert_eq!(scalar, 9);
}

#[test]
fn map_zip_map_and_from_fn() {
    let foo = [0i16, 0];
    let bar: [u8; 2] = FrameChannels::map(foo, |s: i16| -> u8 { s.to_sample() });
    assert_eq!(bar, [128u8, 128]);
    let sums: [i32; 3] = FrameChannels::zip_map([1i8, 2, 3], [10i16, 20, 30], |a: i8, b: i16| -> i32 {
        a as i32 + b as i32
    });
    assert_eq!(sums, [11, 22, 33]);
    let ramp: [u16; 4] = FrameChannels::from_fn(|i: usize| (i as u16) * 100);
    assert_eq!(ramp, [0, 100, 200, 300]);
    let mono: u8 = FrameChannels::from_fn(|i: usize| i as u8 + 7);
    assert_eq!(mono, 7);
    let doubled: i8 = FrameChannels::map(-4i8, |s: i8| s * 2);
    assert_eq!(doubled, -8);
}

#[test]
fn from_samples_takes_one_sample_per_channel() {
    let mut samples = vec![1i16, 2, 3, 4, 5].into_iter();
    let a: Option<[i16; 2]> = FrameChannels::from_samples(&mut samples);
    assert_eq!(a, Some([1, 2]));
    let b: Option<[i16; 2]> = FrameChannels::from_samples(&mut samples);
    assert_eq!(b, Some([3, 4]));
    let c: Option<[i16; 2]> = FrameChannels::from_samples(&mut samples);
    assert_eq!(c, None);
    assert_eq!(samples.next(), None);
    let mut mono = [9u8].into_iter();
    let d: Option<u8> = FrameChannels::from_samples(&mut mono);
    assert_eq!(d, Some(9));
    let e: Option<u8> = FrameChannels::from_samples(&mut mono);
    assert_eq!(e, None);
}

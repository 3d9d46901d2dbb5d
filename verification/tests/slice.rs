//! Tests of the conversions between slices of samples and slices of frames, and of the slice
//! utility functions.

use dasp::slice;

#[test]
fn to_sample_slice_interleaves_the_frames() {
    let frames: &[[i16; 2]] = &[[0, 16_384], [0, -16_384]];
    let samples: &[i16] = slice::to_sample_slice(frames);
    assert_eq!(samples, &[0, 16_384, 0, -16_384][..]);
}

#[test]
fn to_frame_slice_groups_whole_frames() {
    let samples: &[i16] = &[0, 16_384, 0, -16_384];
    let frames: Option<&[[i16; 2]]> = slice::to_frame_slice(samples);
    assert_eq!(frames, Some(&[[0, 16_384], [0, -16_384]][..]));
}

#[test]
fn to_frame_slice_refuses_a_partial_frame() {
    let samples: &[i16] = &[0, 16_384, 0];
    let frames: Option<&[[i16; 2]]> = slice::to_frame_slice(samples);
    assert_eq!(frames, None);
}

#[test]
fn from_sample_slice_and_from_frame_slice() {
    let samples: &[u8] = &[1, 2, 3, 4, 5, 6];
    let frames: Option<&[[u8; 3]]> = slice::from_sample_slice(samples);
    assert_eq!(frames, Some(&[[1, 2, 3], [4, 5, 6]][..]));
    let frames: Option<&[[u8; 4]]> = slice::from_sample_slice(samples);
    assert_eq!(frames, None);
    let frames: &[[u8; 3]] = &[[1, 2, 3], [4, 5, 6]];
    let back: &[u8] = slice::from_frame_slice(frames);
    assert_eq!(back, samples);
}

#[test]
fn frames_to_samples_and_back_is_the_identity() {
    let frames: &[[i32; 3]] = &[[1, -2, 3], [-4, 5, -6], [7, -8, 9]];
    let samples: &[i32] = slice::to_sample_slice(frames);
    let back: Option<&[[i32; 3]]> = slice::to_frame_slice(samples);
    assert_eq!(back, Some(frames));
}

#[test]
fn to_sample_slice_mut_writes_through_to_the_frames() {
    let mut frames = [[0i16, 1], [2, 3]];
    {
        let samples: &mut [i16] = slice::to_sample_slice_mut(&mut frames[..]);
        assert_eq!(samples, &mut [0, 1, 2, 3][..]);
        samples[3] = 30;
        samples[0] = -10;
    }
    assert_eq!(frames, [[-10, 1], [2, 30]]);
}

#[test]
fn to_frame_slice_mut_writes_through_to_the_samples() {
    let mut samples = [0i16, 1, 2, 3];
    {
        let frames: &mut [[i16; 2]] = slice::to_frame_slice_mut(&mut samples[..]).unwrap();
        assert_eq!(frames, &mut [[0, 1], [2, 3]][..]);
        frames[1] = [20, 30];
    }
    assert_eq!(samples, [0, 1, 20, 30]);
    let mut odd = [0i16, 1, 2];
    let none: Option<&mut [[i16; 2]]> = slice::to_frame_slice_mut(&mut odd[..]);
    assert!(none.is_none());
}

#[test]
fn from_sample_slice_mut_and_from_frame_slice_mut() {
    let mut samples = [5u16, 6, 7, 8];
    {
        let frames: &mut [[u16; 2]] = slice::from_sample_slice_mut(&mut samples[..]).unwrap();
        frames[0][1] = 60;
    }
    assert_eq!(samples, [5, 60, 7, 8]);
    let mut frames = [[1u16, 2], [3, 4]];
    {
        let flat: &mut [u16] = slice::from_frame_slice_mut(&mut frames[..]);
        flat[2] = 33;
    }
    assert_eq!(frames, [[1, 2], [33, 4]]);
}

#[test]
fn boxed_conversions() {
    let samples: Box<[i16]> = vec![1, 2, 3, 4].into_boxed_slice();
    let frames: Option<Box<[[i16; 2]]>> = slice::to_boxed_frame_slice(samples);
    let frames = frames.unwrap();
    assert_eq!(&frames[..], &[[1, 2], [3, 4]][..]);
    let back: Box<[i16]> = slice::to_boxed_sample_slice(frames);
    assert_eq!(&back[..], &[1, 2, 3, 4][..]);
    let odd: Box<[i16]> = vec![1, 2, 3].into_boxed_slice();
    let none: Option<Box<[[i16; 2]]>> = slice::from_boxed_sample_slice(odd);
    assert!(none.is_none());
    let frames: Box<[[i16; 3]]> = vec![[1, 2, 3]].into_boxed_slice();
    let flat: Box<[i16]> = slice::from_boxed_frame_slice(frames);
    assert_eq!(&flat[..], &[1, 2, 3][..]);
}

#[test]
fn equilibrium_silences_every_frame() {
    let mut frames = [[1u8, 2], [250, 3]];
    slice::equilibrium(&mut frames[..]);
    assert_eq!(frames, [[128, 128], [128, 128]]);
    let mut signed = [[-5i16], [7]];
    slice::equilibrium(&mut signed[..]);
    assert_eq!(signed, [[0], [0]]);
}

#[test]
fn write_copies_every_frame() {
    let mut a = [[0i8, 0], [0, 0]];
    let b = [[1i8, 2], [3, 4]];
    slice::write(&mut a[..], &b[..]);
    assert_eq!(a, b);
}

#[test]
fn map_in_place_and_zip_map_in_place() {
    let mut a = [[1i32, 2], [3, 4]];
    slice::map_in_place(&mut a[..], |f| [f[1], f[0]]);
    assert_eq!(a, [[2, 1], [4, 3]]);
    let b = [[10i32, 20], [30, 40]];
    slice::zip_map_in_place(&mut a[..], &b[..], |x, y| [x[0] + y[0], x[1] + y[1]]);
    assert_eq!(a, [[12, 21], [34, 43]]);
}

#[test]
fn add_in_place_sums_in_the_signed_format() {
    let mut a = [[128u8, 200], [0, 255]];
    let b = [[10i8, -72], [127, -127]];
    slice::add_in_place(&mut a[..], &b[..]);
    assert_eq!(a, [[138, 128], [127, 128]]);
    let mut c = [[100i16], [-100]];
    slice::add_in_place(&mut c[..], &[[5i16], [-5]][..]);
    assert_eq!(c, [[105], [-105]]);
}

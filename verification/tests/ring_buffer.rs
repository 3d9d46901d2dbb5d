//! Tests of the `Fixed` and `Bounded` ring buffers.

use dasp::ring_buffer;

#[test]
fn test_bounded_boxed_slice() {
    let mut rb = ring_buffer::Bounded::from(vec![0; 3].into_boxed_slice());
    assert_eq!(rb.push(1), None);
    assert_eq!(rb.push(2), None);
    assert_eq!(rb.push(3), None);
    assert_eq!(rb.push(4), Some(1));
}

#[test]
fn test_bounded_array() {
    let mut rb = ring_buffer::Bounded::from([0i32; 3]);
    assert_eq!(rb.push(1), None);
    assert_eq!(rb.push(2), None);
    assert_eq!(rb.push(3), None);
    assert_eq!(rb.push(4), Some(1));
}

#[test]
fn test_bounded_from_vec() {
    let mut rb = ring_buffer::Bounded::from(vec![1, 2, 3]);
    assert_eq!(rb.push(4), None);
    assert_eq!(rb.push(5), None);
    assert_eq!(rb.push(6), None);
    assert_eq!(rb.push(7), Some(4));
}

#[test]
fn fixed_len() {
    let rb = ring_buffer::Fixed::from([0; 4]);
    assert_eq!(rb.len(), 4);
}

#[test]
fn fixed_push_returns_the_front() {
    let mut rb = ring_buffer::Fixed::from([0, 1, 2, 3]);
    assert_eq!(rb.push(4), 0);
    assert_eq!(rb.push(5), 1);
    assert_eq!(rb.push(6), 2);
    assert_eq!(rb.push(7), 3);
    assert_eq!(rb.push(8), 4);
    assert_eq!([*rb.get(0), *rb.get(1), *rb.get(2), *rb.get(3)], [5, 6, 7, 8]);
}

#[test]
fn fixed_get_wraps_around() {
    let rb = ring_buffer::Fixed::from([0, 1, 2]);
    assert_eq!(*rb.get(0), 0);
    assert_eq!(*rb.get(1), 1);
    assert_eq!(*rb.get(2), 2);
    assert_eq!(*rb.get(3), 0);
    assert_eq!(*rb.get(4), 1);
    assert_eq!(*rb.get(5), 2);
}

#[test]
fn fixed_get_mut_writes_through() {
    let mut rb = ring_buffer::Fixed::from([0, 1, 2]);
    rb.push(3);
    *rb.get_mut(2) = 9;
    assert_eq!(rb.slices(), (&[1, 2][..], &[9][..]));
}

#[test]
fn fixed_set_first() {
    let mut rb = ring_buffer::Fixed::from([0, 1, 2, 3]);
    assert_eq!(*rb.get(0), 0);
    rb.set_first(2);
    assert_eq!(*rb.get(0), 2);
    rb.set_first(5);
    assert_eq!(*rb.get(0), 1);
}

#[test]
fn fixed_slices() {
    let mut ring_buffer = ring_buffer::Fixed::from([0; 4]);
    assert_eq!(ring_buffer.slices(), (&[0, 0, 0, 0][..], &[][..]));
    ring_buffer.push(1);
    ring_buffer.push(2);
    assert_eq!(ring_buffer.slices(), (&[0, 0][..], &[1, 2][..]));
    ring_buffer.push(3);
    ring_buffer.push(4);
    assert_eq!(ring_buffer.slices(), (&[1, 2, 3, 4][..], &[][..]));
}

#[test]
fn fixed_slices_mut_and_raw_parts() {
    let mut rb = ring_buffer::Fixed::from_raw_parts(1, vec![0, 1, 2]);
    {
        let (start, end) = rb.slices_mut();
        assert_eq!(start, &mut [1, 2][..]);
        assert_eq!(end, &mut [0][..]);
        start[0] = 10;
    }
    assert_eq!(rb.into_raw_parts(), (1, vec![0, 10, 2]));
}

#[test]
fn fixed_from_borrowed_slices() {
    let mut slice = [1, 2, 3, 4];
    let mut rb = ring_buffer::Fixed::from(&mut slice[..]);
    assert_eq!(rb.push(5), 1);
    let slice = [1, 2, 3, 4];
    let rb = ring_buffer::Fixed::from(&slice[..]);
    assert_eq!(*rb.get(1), 2);
}

#[test]
fn bounded_from_full() {
    let mut rb = ring_buffer::Bounded::from_full([0, 1, 2, 3]);
    assert_eq!(rb.len(), rb.max_len());
    assert_eq!(rb.pop(), Some(0));
    assert_eq!(rb.pop(), Some(1));
    assert_eq!(rb.pop(), Some(2));
    assert_eq!(rb.pop(), Some(3));
    assert_eq!(rb.pop(), None);
}

#[test]
fn bounded_lengths() {
    let mut rb = ring_buffer::Bounded::from([0i32; 3]);
    assert_eq!(rb.max_len(), 3);
    assert_eq!(rb.len(), 0);
    assert!(rb.is_empty());
    assert!(!rb.is_full());
    rb.push(0);
    assert!(!rb.is_empty());
    rb.push(1);
    rb.push(2);
    assert!(rb.is_full());
}

#[test]
fn bounded_slices() {
    let mut ring_buffer = ring_buffer::Bounded::from([0i32; 4]);
    assert_eq!(ring_buffer.slices(), (&[][..], &[][..]));
    ring_buffer.push(1);
    ring_buffer.push(2);
    assert_eq!(ring_buffer.slices(), (&[1, 2][..], &[][..]));
    ring_buffer.push(3);
    ring_buffer.push(4);
    assert_eq!(ring_buffer.slices(), (&[1, 2, 3, 4][..], &[][..]));
    ring_buffer.push(5);
    ring_buffer.push(6);
    assert_eq!(ring_buffer.slices(), (&[3, 4][..], &[5, 6][..]));
    let (start, end) = ring_buffer.slices_mut();
    start[0] = 30;
    end[1] = 60;
    assert_eq!(ring_buffer.slices(), (&[30, 4][..], &[5, 60][..]));
}

#[test]
fn bounded_get_counts_from_the_front() {
    let mut rb = ring_buffer::Bounded::from([0i32; 4]);
    assert_eq!(rb.get(1), None);
    rb.push(0);
    rb.push(1);
    assert_eq!(rb.get(1), Some(&1));
    rb.pop();
    rb.push(2);
    rb.push(3);
    rb.push(4);
    assert_eq!(rb.get(0), Some(&1));
    assert_eq!(rb.get(3), Some(&4));
    assert_eq!(rb.get(4), None);
    *rb.get_mut(3).unwrap() = 40;
    assert_eq!(rb.get(3), Some(&40));
    assert_eq!(rb.get_mut(4), None);
}

#[test]
fn bounded_push_and_pop() {
    let mut ring_buffer = ring_buffer::Bounded::from([0i32; 3]);
    assert_eq!(ring_buffer.push(1), None);
    assert_eq!(ring_buffer.push(2), None);
    assert_eq!(ring_buffer.len(), 2);
    assert_eq!(ring_buffer.push(3), None);
    assert_eq!(ring_buffer.len(), 3);
    assert_eq!(ring_buffer.push(4), Some(1));
    assert_eq!(ring_buffer.len(), 3);

    let mut rb = ring_buffer::Bounded::from_full([0, 1, 2]);
    assert_eq!(rb.pop(), Some(0));
    assert_eq!(rb.pop(), Some(1));
    assert_eq!(rb.push(3), None);
    assert_eq!(rb.pop(), Some(2));
    assert_eq!(rb.pop(), Some(3));
    assert_eq!(rb.pop(), None);
}

#[test]
fn bounded_drain() {
    let mut rb = ring_buffer::Bounded::from_full([0, 1, 2, 3]);
    {
        let mut drain = rb.drain();
        assert_eq!(drain.len(), 4);
        assert_eq!(drain.next(), Some(0));
        assert_eq!(drain.next(), Some(1));
    }
    assert_eq!(rb.pop(), Some(2));
    assert_eq!(rb.pop(), Some(3));
    assert_eq!(rb.pop(), None);
}

#[test]
fn bounded_raw_parts() {
    let mut rb = ring_buffer::Bounded::from_raw_parts(2, 3, [7, 8, 9, 10]);
    assert_eq!(rb.slices(), (&[9, 10][..], &[7][..]));
    assert_eq!(rb.pop(), Some(9));
}

#[test]
fn iter_yields_front_to_back() {
    let mut fixed = ring_buffer::Fixed::from([1, 2, 3]);
    fixed.push(4);
    let items: Vec<i32> = fixed.iter().into_iter().copied().collect();
    assert_eq!(items, vec![2, 3, 4]);
    let mut bounded = ring_buffer::Bounded::from([0; 3]);
    bounded.push(7);
    bounded.push(8);
    let items: Vec<i32> = bounded.iter().into_iter().copied().collect();
    assert_eq!(items, vec![7, 8]);
}

#[test]
fn iter_loop_cycles_from_the_front() {
    let mut fixed = ring_buffer::Fixed::from([1, 2, 3]);
    fixed.push(4);
    let mut cycle = fixed.iter_loop();
    let items: Vec<i32> = (0..5).map(|_| *cycle.next().unwrap()).collect();
    assert_eq!(items, vec![2, 3, 4, 2, 3]);
}

#[test]
fn fixed_size_array_len() {
    assert_eq!(<[u8; 5] as ring_buffer::FixedSizeArray>::LEN, 5);
}

#[test]
fn fixed_iter_mut_writes_front_to_back() {
    let mut fixed = ring_buffer::Fixed::from([1, 2, 3]);
    fixed.push(4);
    {
        let mut items = fixed.iter_mut();
        *items.next().unwrap() = 20;
        *items.next().unwrap() = 30;
        *items.next().unwrap() = 40;
        assert!(items.next().is_none());
    }
    let items: Vec<i32> = fixed.iter().into_iter().copied().collect();
    assert_eq!(items, vec![20, 30, 40]);
    assert_eq!(fixed.into_raw_parts(), (1, [40, 20, 30]));
}

#[test]
fn bounded_iter_mut_visits_only_the_elements() {
    let mut bounded = ring_buffer::Bounded::from_raw_parts(2, 3, [7, 8, 9, 10]);
    {
        let mut items = bounded.iter_mut();
        let mut k = 0;
        while let Some(x) = items.next() {
            k += 1;
            *x *= k;
        }
        assert_eq!(k, 3);
    }
    assert_eq!(bounded.slices(), (&[9, 20][..], &[21][..]));
    let mut bounded = ring_buffer::Bounded::from_raw_parts(0, 2, [1, 2, 3]);
    for _ in 0..2 {
        let mut items = bounded.iter_mut();
        while let Some(x) = items.next() {
            *x += 1;
        }
    }
    let empty: &[i32] = &[];
    assert_eq!(bounded.slices(), (&[3, 4][..], empty));
}

#[test]
fn bounded_into_raw_parts_after_push_and_pop() {
    let mut rb = ring_buffer::Bounded::from([0u8; 3]);
    rb.push(1);
    rb.push(2);
    assert_eq!(rb.pop(), Some(1));
    rb.push(3);
    rb.push(4);
    assert_eq!(rb.into_raw_parts(), (1, 3, [4, 2, 3]));
}

#[test]
fn fixed_push_get_and_slices_follow_the_rotation() {
    let mut rb = ring_buffer::Fixed::from([0, 1, 2, 3]);
    assert_eq!(rb.len(), 4);
    let pushed: Vec<i32> = (4..9).map(|x| rb.push(x)).collect();
    assert_eq!(pushed, vec![0, 1, 2, 3, 4]);
    assert_eq!([*rb.get(0), *rb.get(1), *rb.get(2), *rb.get(3)], [5, 6, 7, 8]);
    assert_eq!(rb.len(), 4);
    let rb = ring_buffer::Fixed::from([0, 1, 2]);
    let got: Vec<i32> = (0..6).map(|i| *rb.get(i)).collect();
    assert_eq!(got, vec![0, 1, 2, 0, 1, 2]);
    let mut rb = ring_buffer::Fixed::from([0; 4]);
    assert_eq!(rb.slices(), (&[0, 0, 0, 0][..], &[][..]));
    rb.push(1);
    rb.push(2);
    assert_eq!(rb.slices(), (&[0, 0][..], &[1, 2][..]));
    rb.push(3);
    rb.push(4);
    assert_eq!(rb.slices(), (&[1, 2, 3, 4][..], &[][..]));
}

#[test]
fn bounded_slices_follow_pushes_and_from_full_is_full() {
    let mut rb = ring_buffer::Bounded::from_full([0, 1, 2, 3]);
    assert_eq!(rb.len(), rb.max_len());
    assert_eq!(rb.max_len(), 4);
    assert_eq!((rb.pop(), rb.pop(), rb.pop(), rb.pop(), rb.pop()), (Some(0), Some(1), Some(2), Some(3), None));
    let mut rb = ring_buffer::Bounded::from([0i32; 4]);
    let empty: &[i32] = &[];
    assert_eq!(rb.slices(), (empty, empty));
    rb.push(1);
    rb.push(2);
    assert_eq!(rb.slices(), (&[1, 2][..], empty));
    rb.push(3);
    rb.push(4);
    assert_eq!(rb.slices(), (&[1, 2, 3, 4][..], empty));
    rb.push(5);
    rb.push(6);
    assert_eq!(rb.slices(), (&[3, 4][..], &[5, 6][..]));
}

#[test]
fn bounded_get_mut_writes_into_the_buffer() {
    let mut rb = ring_buffer::Bounded::from_raw_parts(2, 3, [7, 8, 9, 10]);
    *rb.get_mut(2).unwrap() = 99;
    assert!(rb.get_mut(3).is_none());
    assert_eq!(rb.slices(), (&[9, 10][..], &[99][..]));
    assert_eq!(rb.into_raw_parts(), (2, 3, [99, 8, 9, 10]));
}

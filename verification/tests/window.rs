//! Tests of the `Windower`.

use dasp::window::Windower;

#[test]
fn test_windower() {
    let data = [[1i16], [1], [2], [2], [3], [3], [4], [4]];
    let expected = [
        [[1i16], [1]],
        [[1], [2]],
        [[2], [2]],
        [[2], [3]],
        [[3], [3]],
        [[3], [4]],
        [[4], [4]],
    ];
    let mut windower = Windower::rectangle(&data, 2, 1);
    let mut count = 0;
    while let Some(chunk) = windower.next() {
        let expected_chunk = &expected[count];
        for (r, e) in chunk.iter().zip(expected_chunk.iter()) {
            println!("Expected: {}\t\tFound: {}", e[0], r[0]);
            assert_eq!(r, e);
        }
        count += 1;
    }
    assert_eq!(count, expected.len());
}

#[test]
fn windower_steps_by_the_hop() {
    let data = [0u8, 1, 2, 3, 4, 5, 6, 7, 8, 9];
    let mut windower = Windower::hanning(&data[..], 4, 3);
    assert_eq!(windower.size_hint(), (3, Some(3)));
    assert_eq!(windower.next(), Some(&[0u8, 1, 2, 3][..]));
    assert_eq!(windower.next(), Some(&[3u8, 4, 5, 6][..]));
    assert_eq!(windower.next(), Some(&[6u8, 7, 8, 9][..]));
    assert_eq!(windower.next(), None);
    let mut endless = Windower::hann(&data[..], 2, 0);
    assert_eq!(endless.size_hint(), (usize::MAX, None));
    assert_eq!(endless.next(), Some(&[0u8, 1][..]));
    assert_eq!(endless.next(), Some(&[0u8, 1][..]));
}

#[test]
fn windower_stops_when_the_hop_passes_the_end() {
    let data = [[1i32, 2], [3, 4]];
    let mut windower = Windower::rectangle(&data[..], 2, 5);
    assert_eq!(windower.next(), Some(&[[1, 2], [3, 4]][..]));
    assert_eq!(windower.next(), None);
}

#[test]
fn size_hint_counts_every_chunk_next_yields() {
    let data = [[0i16], [1], [2], [3], [4], [5], [6], [7]];
    let mut windower = Windower::rectangle(&data[..], 2, 1);
    assert_eq!(windower.size_hint(), (7, Some(7)));
    let mut count = 0;
    while windower.next().is_some() {
        count += 1;
    }
    assert_eq!(count, 7);
    assert_eq!(windower.size_hint(), (0, Some(0)));
    let mut whole = Windower::rectangle(&data[..], 8, 3);
    assert_eq!(whole.size_hint(), (1, Some(1)));
    assert!(whole.next().is_some());
    assert!(whole.next().is_none());
    let too_big = Windower::rectangle(&data[..], 9, 1);
    assert_eq!(too_big.size_hint(), (0, Some(0)));
}

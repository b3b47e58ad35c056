use brio_lamp::codec::build_color_frame;
use brio_lamp::codec::build_off_frame;
use brio_lamp::chksum;

#[test]
fn test_chksum() {
    let blue_cmd = vec![0xAA, 0x02, 0x02, 0x7A, 0x82];
    let light_blue_cmd = vec![0xAA, 0x02, 0x02, 0x6A, 0x92];
    let off_cmd = vec![0xAA, 0x02, 0x02, 0x00, 0xFC];

    assert_eq!(chksum(&blue_cmd), 0x82);
    assert_eq!(chksum(&light_blue_cmd), 0x92);
    assert_eq!(chksum(&off_cmd), 0xFC);
}

#[test]
fn chksum_closes_the_sum_for_every_payload() {
    for p in 0..=255u8 {
        let frame = build_color_frame(p);
        let sum: u32 = frame[1..4].iter().map(|&b| b as u32).sum::<u32>() + frame[4] as u32;
        assert_eq!(sum % 0x100, 0);
    }
}

#[test]
fn chksum_ignores_first_and_last_byte() {
    // Only bytes [1, len - 1) enter the sum: changing the first or the last
    // byte leaves the checksum unchanged.
    let a = vec![0xAA, 0x02, 0x02, 0x7A, 0x82];
    let b = vec![0x00, 0x02, 0x02, 0x7A, 0xFF];
    assert_eq!(chksum(&a), chksum(&b));
}

#[test]
fn chksum_longer_input() {
    // Sum of bytes [1, 5) is 1 + 2 + 3 + 4 = 10 = 0x0A; 0x100 - 0x0A = 0xF6.
    let data = vec![0xAA, 0x01, 0x02, 0x03, 0x04, 0x00];
    assert_eq!(chksum(&data), 0xF6);
}

#[test]
fn chksum_wraps_modulo_256() {
    // Sum of bytes [1, 3) is 0x80 + 0x80 = 0x100; the checksum of a sum
    // congruent to zero is zero.
    let data = vec![0xAA, 0x80, 0x80, 0x00];
    assert_eq!(chksum(&data), 0x00);
}

#[test]
fn chksum_shortest_input() {
    // Length two: the summed range [1, 1) is empty, so the checksum is zero.
    let data = vec![0xAA, 0x00];
    assert_eq!(chksum(&data), 0x00);
}

#[test]
fn chksum_is_deterministic() {
    let data = vec![0xAA, 0x02, 0x02, 0x31, 0x00];
    assert_eq!(chksum(&data), chksum(&data));
}

#[test]
fn color_frame_shape() {
    for p in 0..=255u8 {
        let frame = build_color_frame(p);
        assert_eq!(frame.len(), 5);
        assert_eq!(&frame[0..3], &[0xAA, 0x02, 0x02]);
        assert_eq!(frame[3], p);
        assert_eq!(frame[4], chksum(&frame));
    }
}

#[test]
fn color_frame_known_vectors() {
    assert_eq!(build_color_frame(0x7A), vec![0xAA, 0x02, 0x02, 0x7A, 0x82]);
    assert_eq!(build_color_frame(0x6A), vec![0xAA, 0x02, 0x02, 0x6A, 0x92]);
}

#[test]
fn off_frame_is_fixed() {
    assert_eq!(build_off_frame(), vec![0xAA, 0x02, 0x02, 0x00, 0xFC]);
    assert_eq!(build_off_frame(), build_color_frame(0x00));
}

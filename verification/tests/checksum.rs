use relay_core::checksum::compute_checksum;

#[test]
fn checksum_single_word() {
    // One word 0x0800: complement is 0xf7ff.
    assert_eq!(0xf7ff, compute_checksum(&[8u8, 0, 0, 0]));
}

#[test]
fn checksum_carry_folds() {
    // 0xffff + 0xffff = 0x1fffe; folding gives 0xffff; complement 0.
    assert_eq!(0, compute_checksum(&[0xffu8, 0xff, 0xff, 0xff]));
}

#[test]
fn checksum_empty_is_all_ones() {
    assert_eq!(0xffff, compute_checksum(&[]));
}

#[test]
fn checksum_ignores_odd_trailing_byte() {
    // Only the first two 16-bit words are summed; the fifth byte is
    // outside every word.
    assert_eq!(
        compute_checksum(&[1u8, 2, 3, 4]),
        compute_checksum(&[1u8, 2, 3, 4, 0x99])
    );
}

#[test]
fn checksum_at_largest_packet_size() {
    // The largest scope a 16-bit total length admits.
    let data = vec![0xffu8; 0xffff];
    // 32767 words of 0xffff fold back to 0xffff; complement 0.
    assert_eq!(0, compute_checksum(&data));
}

#[test]
fn checksum_self_verifies() {
    // Compute the checksum of a header whose checksum field is zero,
    // stamp it in, and the checksum over the stamped bytes is zero.
    let header = [8u8, 0, 0, 0, 1, 2];
    let c = compute_checksum(&header);
    assert_eq!(0xf6fd, c);
    let stamped = [8u8, 0, (c >> 8) as u8, (c & 0xff) as u8, 1, 2];
    assert_eq!(0, compute_checksum(&stamped));
}

use md5::padding::pad;

fn padded_copy(message: &[u8]) -> Vec<u8> {
    let mut bytes = message.to_vec();
    pad(&mut bytes);
    bytes
}

#[test]
fn empty_message_pads_to_one_block() {
    let padded = padded_copy(b"");
    let mut expected = vec![0u8; 64];
    expected[0] = 0x80;
    assert_eq!(padded, expected);
}

#[test]
fn three_bytes_pad_to_one_block() {
    let padded = padded_copy(b"abc");
    let mut expected = vec![0u8; 64];
    expected[0] = b'a';
    expected[1] = b'b';
    expected[2] = b'c';
    expected[3] = 0x80;
    expected[56] = 24;
    assert_eq!(padded, expected);
}

#[test]
fn fifty_five_bytes_fill_one_block_exactly() {
    let padded = padded_copy(&[1u8; 55]);
    assert_eq!(padded.len(), 64);
    assert_eq!(padded[55], 0x80);
    assert_eq!(&padded[56..], &[0xb8, 0x01, 0, 0, 0, 0, 0, 0]);
}

#[test]
fn fifty_six_bytes_need_a_second_block() {
    let padded = padded_copy(&[1u8; 56]);
    assert_eq!(padded.len(), 128);
    assert_eq!(padded[56], 0x80);
    assert!(padded[57..120].iter().all(|&b| b == 0));
    assert_eq!(&padded[120..], &[0xc0, 0x01, 0, 0, 0, 0, 0, 0]);
}

#[test]
fn sixty_four_bytes_pad_to_two_blocks() {
    let padded = padded_copy(&[9u8; 64]);
    assert_eq!(padded.len(), 128);
    assert_eq!(padded[64], 0x80);
    assert_eq!(&padded[120..], &[0x00, 0x02, 0, 0, 0, 0, 0, 0]);
}

#[test]
fn one_hundred_nineteen_bytes_pad_to_two_blocks() {
    let padded = padded_copy(&[9u8; 119]);
    assert_eq!(padded.len(), 128);
    assert_eq!(padded[119], 0x80);
    assert_eq!(&padded[120..], &[0xb8, 0x03, 0, 0, 0, 0, 0, 0]);
}

#[test]
fn length_field_spans_more_than_two_bytes() {
    let padded = padded_copy(&vec![0u8; 70_000]);
    let total = padded.len();
    assert_eq!(total % 64, 0);
    // 70_000 bytes are 560_000 bits, 0x088b80.
    assert_eq!(&padded[total - 8..], &[0x80, 0x8b, 0x08, 0, 0, 0, 0, 0]);
}

#[test]
fn padded_length_is_a_whole_number_of_blocks() {
    for len in 0usize..300 {
        let message = vec![0xa5u8; len];
        let padded = padded_copy(&message);
        assert_eq!((padded.len() * 8) % 512, 0);
        assert!(padded.len() > len);
        let before_length_field = padded.len() - 8 - len;
        assert!(1 <= before_length_field && before_length_field <= 64);
        assert_eq!((len + before_length_field) % 64, 56);
        assert_eq!(&padded[..len], &message[..]);
        assert_eq!(padded[len], 0x80);
        assert!(padded[len + 1..padded.len() - 8].iter().all(|&b| b == 0));
        assert_eq!(&padded[padded.len() - 8..], &((len as u64) * 8).to_le_bytes());
    }
}

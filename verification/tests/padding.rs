use gpconnect::libs::padding::{append_trailer, strip_trailer, BLOCK_SIZE, NEXT_HEADER_IPV4};

fn padded(payload: &[u8]) -> Vec<u8> {
    let mut data = payload.to_vec();
    append_trailer(&mut data);
    data
}

fn ramp(len: usize) -> Vec<u8> {
    let mut out: Vec<u8> = Vec::with_capacity(len);
    let mut i: usize = 0;
    while i < len {
        out.push(i as u8);
        i += 1;
    }
    out
}

#[test]
fn trailer_of_an_empty_payload() {
    assert_eq!(hex::encode(padded(b"")), "0102030405060708090a0b0c0d0e0e04");
}

#[test]
fn trailer_of_one_byte() {
    assert_eq!(hex::encode(padded(b"a")), "610102030405060708090a0b0c0d0d04");
}

#[test]
fn trailer_where_one_filler_byte_fits() {
    assert_eq!(hex::encode(padded(&ramp(13))), "000102030405060708090a0b0c010104");
}

#[test]
fn trailer_where_no_filler_fits() {
    assert_eq!(hex::encode(padded(&ramp(14))), "000102030405060708090a0b0c0d0004");
}

#[test]
fn trailer_where_one_byte_of_the_block_is_free() {
    assert_eq!(
        hex::encode(padded(&ramp(15))),
        "000102030405060708090a0b0c0d0e0102030405060708090a0b0c0d0e0f0f04"
    );
}

#[test]
fn trailer_of_a_whole_block() {
    assert_eq!(
        hex::encode(padded(&ramp(16))),
        "000102030405060708090a0b0c0d0e0f0102030405060708090a0b0c0d0e0e04"
    );
}

#[test]
fn padded_length_is_a_multiple_of_the_block_size() {
    let mut len: usize = 0;
    while len <= 4096 {
        let payload = ramp(len);
        let data = padded(&payload);
        assert_eq!(data.len() % BLOCK_SIZE, 0);
        assert!(data.len() >= len + 2);
        assert!(data.len() <= len + 17);
        let appended: usize = data.len() - len;
        let pad_length_byte = data[data.len() - 2];
        assert_eq!(pad_length_byte as usize, appended - 1 - 1);
        assert_eq!(data[data.len() - 1], NEXT_HEADER_IPV4);
        let mut i: usize = 0;
        while i < pad_length_byte as usize {
            assert_eq!(data[len + i] as usize, i + 1);
            i += 1;
        }
        assert_eq!(&data[..len], &payload[..]);
        len += 1;
    }
}

#[test]
fn stripping_undoes_padding() {
    let mut len: usize = 0;
    while len <= 300 {
        let payload = ramp(len);
        assert_eq!(strip_trailer(&padded(&payload)), Some(payload));
        len += 1;
    }
}

#[test]
fn stripping_goes_by_the_pad_length_byte() {
    assert_eq!(strip_trailer(&[9, 8, 7, 1, 4]), Some(vec![9, 8]));
    assert_eq!(strip_trailer(&[9, 8, 7, 0, 4]), Some(vec![9, 8, 7]));
    assert_eq!(strip_trailer(&[9, 8, 7, 3, 4]), Some(vec![]));
    assert_eq!(strip_trailer(&[0, 4]), Some(vec![]));
    assert_eq!(strip_trailer(&[9, 8, 7, 1, 0x29]), Some(vec![9, 8]));
}

#[test]
fn stripping_refuses_what_has_no_trailer() {
    assert_eq!(strip_trailer(&[]), None);
    assert_eq!(strip_trailer(&[4]), None);
    assert_eq!(strip_trailer(&[1, 4]), None);
    assert_eq!(strip_trailer(&[9, 8, 7, 4, 4]), None);
    assert_eq!(strip_trailer(&[9, 8, 7, 255, 4]), None);
}

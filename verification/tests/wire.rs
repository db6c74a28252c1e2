use gpconnect::libs::wire::{
    copy_range, push_all, push_be16, push_be32, read_be16, read_be32, write_be16,
};

#[test]
fn numbers_go_out_most_significant_byte_first() {
    let mut out: Vec<u8> = vec![0xaa];
    push_be16(&mut out, 0x1234);
    push_be32(&mut out, 0x54C277B0);
    assert_eq!(out, vec![0xaa, 0x12, 0x34, 0x54, 0xc2, 0x77, 0xb0]);
}

#[test]
fn numbers_are_read_back() {
    let bytes: [u8; 7] = [0xaa, 0x12, 0x34, 0x54, 0xc2, 0x77, 0xb0];
    assert_eq!(read_be16(&bytes, 1), 0x1234);
    assert_eq!(read_be32(&bytes, 3), 0x54C277B0);
    assert_eq!(read_be32(&[0xff, 0xff, 0xff, 0xff], 0), u32::MAX);
    assert_eq!(read_be16(&[0xff, 0xff], 0), u16::MAX);
    assert_eq!(read_be32(&[0, 0, 0, 0], 0), 0);
}

#[test]
fn every_sixteen_bit_number_survives() {
    let mut x: u16 = 0;
    loop {
        let mut out: Vec<u8> = Vec::new();
        push_be16(&mut out, x);
        assert_eq!(out.len(), 2);
        assert_eq!(read_be16(&out, 0), x);
        if x == u16::MAX {
            break;
        }
        x += 1;
    }
}

#[test]
fn thirty_two_bit_numbers_survive() {
    let samples: [u32; 8] =
        [0, 1, 0xff, 0x100, 0x0102_0304, 0x28E7990F, 0x8000_0000, u32::MAX];
    for x in samples {
        let mut out: Vec<u8> = Vec::new();
        push_be32(&mut out, x);
        assert_eq!(out.len(), 4);
        assert_eq!(read_be32(&out, 0), x);
    }
}

#[test]
fn two_bytes_are_overwritten_in_place() {
    let mut buf: Vec<u8> = vec![1, 2, 3, 4, 5];
    write_be16(&mut buf, 2, 0xbeef);
    assert_eq!(buf, vec![1, 2, 0xbe, 0xef, 5]);
    write_be16(&mut buf, 3, 0x0001);
    assert_eq!(buf, vec![1, 2, 0xbe, 0x00, 0x01]);
}

#[test]
fn slices_are_appended_and_copied() {
    let mut out: Vec<u8> = vec![9];
    push_all(&mut out, &[1, 2, 3]);
    push_all(&mut out, &[]);
    assert_eq!(out, vec![9, 1, 2, 3]);
    assert_eq!(copy_range(&out, 1, 3), vec![1, 2]);
    assert_eq!(copy_range(&out, 2, 2), Vec::<u8>::new());
    assert_eq!(copy_range(&out, 0, 4), out);
}

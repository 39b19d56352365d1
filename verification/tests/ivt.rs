use ec_slimloader::ivt::{BufferTooSmall, IVT, IVT_SIZE};

fn header(image_len: u32, image_type: u32, target: u32) -> [u8; 64] {
    let mut h = [0xAAu8; 64];
    h[0x20..0x24].copy_from_slice(&image_len.to_le_bytes());
    h[0x24..0x28].copy_from_slice(&image_type.to_le_bytes());
    h[0x34..0x38].copy_from_slice(&target.to_le_bytes());
    h
}

#[test]
fn read_from_slice_refuses_short_buffers() {
    assert_eq!(IVT::read_from_slice(&[]), Err(BufferTooSmall));
    assert_eq!(IVT::read_from_slice(&[0u8; 63]), Err(BufferTooSmall));
}

#[test]
fn read_from_slice_reads_little_endian_fields() {
    let h = header(0x0001_2345, 0x0000_0104, 0x0002_0000);
    let ivt = IVT::read_from_slice(&h).unwrap();
    assert_eq!(ivt.image_len, 0x0001_2345);
    assert_eq!(ivt.image_type, 0x0000_0104);
    assert_eq!(ivt.target_ptr, 0x0002_0000);
}

#[test]
fn read_from_slice_reads_byte_order() {
    let mut h = [0u8; 64];
    h[0x20] = 0x01;
    h[0x21] = 0x02;
    h[0x22] = 0x03;
    h[0x23] = 0x04;
    h[0x34] = 0xFF;
    h[0x37] = 0x80;
    let ivt = IVT::read_from_slice(&h).unwrap();
    assert_eq!(ivt.image_len, 0x0403_0201);
    assert_eq!(ivt.image_type, 0);
    assert_eq!(ivt.target_ptr, 0x8000_00FF);
}

#[test]
fn read_from_slice_reads_only_the_header() {
    let h = header(100, 4, 0x3_0000);
    let mut long = h.to_vec();
    long.extend_from_slice(&[0x55u8; 200]);
    assert_eq!(IVT::read_from_slice(&long), IVT::read_from_slice(&h));
    assert_eq!(IVT_SIZE, 64);
}

#[test]
fn read_agrees_with_read_from_slice() {
    let h = header(0xFFFF_FFFF, 0xDEAD_BEEF, 0x1234_5678);
    assert_eq!(Ok(IVT::read(&h)), IVT::read_from_slice(&h));
    assert_eq!(IVT::read(&h).image_len, 0xFFFF_FFFF);
}

#[test]
fn target_end_ptr_adds_length() {
    let ivt = IVT { image_len: 0x1000, image_type: 4, target_ptr: 0x2_0000 };
    assert_eq!(ivt.target_end_ptr(), Some(0x2_1000));
}

#[test]
fn target_end_ptr_detects_overflow() {
    let ivt = IVT { image_len: 2, image_type: 4, target_ptr: usize::MAX - 1 };
    assert_eq!(ivt.target_end_ptr(), None);
    let ivt = IVT { image_len: 1, image_type: 4, target_ptr: usize::MAX - 1 };
    assert_eq!(ivt.target_end_ptr(), Some(usize::MAX));
}

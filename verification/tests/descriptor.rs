use ec_slimloader::AppImageDescriptor;

#[test]
fn new_ram_image_keeps_fields() {
    let d = AppImageDescriptor::new_ram_image(0x0800_0000, 0x10_0000);
    assert_eq!(d.slot_address, 0x0800_0000);
    assert_eq!(d.slot_size_bytes, 0x10_0000);
}

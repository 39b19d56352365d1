use vstd::prelude::*;

verus! {

/// The App Image Descriptor for describing layout and usage of the corresponding app image.
#[derive(Copy, Clone, Debug)]
pub struct AppImageDescriptor {
    /// Where the full, contiguous app image is stored.
    pub slot_address: u32,
    /// The size of the app image stored at `slot_address`.
    pub slot_size_bytes: u32,
}

impl AppImageDescriptor {
    /// Describe an image that is copied to RAM before it runs, stored in the
    /// slot at `slot_address` of `slot_size_bytes` bytes.
    pub fn new_ram_image(slot_address: u32, slot_size_bytes: u32) -> (d: Self)
        ensures
            d.slot_address == slot_address,
            d.slot_size_bytes == slot_size_bytes,
    {
        AppImageDescriptor { slot_address, slot_size_bytes }
    }
}

} // verus!

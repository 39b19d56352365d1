//! Image checks and boot decisions of a secure bootloader for i.MX RT6xx
//! parts, together with the app image descriptors shared with the update
//! process.
//!
//! - [`ivt`] reads the image vector table at the start of a signed image;
//! - [`boot`] decides, step by step, whether an image in a flash slot may be
//!   copied, authenticated and booted;
//! - [`rom`] decodes what the boot ROM reports of an authentication;
//! - [`descriptor`] describes the app images for the update process.

/// CRC32 types for computing checksums that match the ones the bootloader expects.
pub use crc::{Crc, Digest, CRC_32_ISO_HDLC};

pub mod boot;
pub mod descriptor;
pub mod ivt;
pub mod rom;

pub use descriptor::AppImageDescriptor;

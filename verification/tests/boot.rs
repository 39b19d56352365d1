use ec_slimloader::boot::{
    begin, check_header, step, BootError, BootEvent, BootRequest, BootStage, BootStep,
    ImageLimits, UsizeRange, IMAGE_TYPE_XIP_SIGNED,
};
use ec_slimloader::ivt::IVT;
use ec_slimloader::rom::AuthenticateError;

const LOAD_START: usize = 0x0002_0000;
const LOAD_END: usize = 0x0018_0000;

fn limits() -> ImageLimits {
    ImageLimits {
        slot_size: UsizeRange { start: 64, end: 1024 * 1024 },
        load: UsizeRange { start: LOAD_START, end: LOAD_END },
    }
}

fn header(image_len: u32, image_type: u32, target: u32) -> [u8; 64] {
    let mut h = [0u8; 64];
    h[0x20..0x24].copy_from_slice(&image_len.to_le_bytes());
    h[0x24..0x28].copy_from_slice(&image_type.to_le_bytes());
    h[0x34..0x38].copy_from_slice(&target.to_le_bytes());
    h
}

fn image(h: &[u8; 64], len: usize) -> Vec<u8> {
    let mut v = h.to_vec();
    v.resize(len, 0x5A);
    v
}

fn stage_of(s: BootStep) -> BootStage {
    match s {
        BootStep::Continue { stage, .. } => stage,
        other => panic!("expected to continue, got {:?}", other),
    }
}

/// Runs an attempt on slot 1 of 0x8000 bytes up to the copy request.
fn up_to_copy(h: [u8; 64]) -> BootStep {
    let l = limits();
    let s = stage_of(begin(1));
    let s = stage_of(step(&l, s, BootEvent::SlotFound { capacity: 0x8000 }));
    step(&l, s, BootEvent::HeaderRead(h))
}

#[test]
fn begin_asks_for_the_slot() {
    assert_eq!(
        begin(1),
        BootStep::Continue {
            stage: BootStage::LocateSlot { index: 1 },
            request: BootRequest::QuerySlot { index: 1 }
        }
    );
}

#[test]
fn full_boot_of_a_good_image() {
    let l = limits();
    let h = header(0x1000, 0x0000_0104, 0x0003_0000);
    let s = stage_of(begin(0));
    let next = step(&l, s, BootEvent::SlotFound { capacity: 0x8000 });
    assert_eq!(
        next,
        BootStep::Continue {
            stage: BootStage::ReadHeader { index: 0, slot_size: 0x8000 },
            request: BootRequest::ReadHeader { index: 0 }
        }
    );
    let next = step(&l, stage_of(next), BootEvent::HeaderRead(h));
    let ivt = IVT { image_len: 0x1000, image_type: 0x104, target_ptr: 0x3_0000 };
    assert_eq!(
        next,
        BootStep::Continue {
            stage: BootStage::CopyImage { index: 0, slot_size: 0x8000, ivt },
            request: BootRequest::CopyImage { index: 0, target: 0x3_0000, len: 0x1000 }
        }
    );
    let ram = image(&h, 0x1000);
    let next = step(&l, stage_of(next), BootEvent::ImageCopied(&ram));
    assert_eq!(
        next,
        BootStep::Continue {
            stage: BootStage::Authenticate { slot_size: 0x8000, ivt },
            request: BootRequest::Authenticate { target: 0x3_0000, len: 0x1000 }
        }
    );
    let next = step(&l, stage_of(next), BootEvent::Authenticated);
    assert_eq!(next, BootStep::Boot { target: 0x3_0000 });
}

#[test]
fn unknown_slot() {
    let s = stage_of(begin(3));
    assert_eq!(step(&limits(), s, BootEvent::SlotMissing), BootStep::Abort(BootError::SlotUnknown));
}

#[test]
fn slot_too_large() {
    let s = stage_of(begin(0));
    assert_eq!(
        step(&limits(), s, BootEvent::SlotFound { capacity: 1024 * 1024 }),
        BootStep::Abort(BootError::TooLarge)
    );
    let s = stage_of(begin(0));
    assert!(matches!(
        step(&limits(), s, BootEvent::SlotFound { capacity: 1024 * 1024 - 1 }),
        BootStep::Continue { .. }
    ));
}

#[test]
fn header_read_fails() {
    let s = stage_of(begin(0));
    let s = stage_of(step(&limits(), s, BootEvent::SlotFound { capacity: 0x8000 }));
    assert_eq!(step(&limits(), s, BootEvent::IoFailed), BootStep::Abort(BootError::IO));
}

#[test]
fn wrong_marker() {
    assert_eq!(up_to_copy(header(0x1000, 0x0005, 0x3_0000)), BootStep::Abort(BootError::Markers));
    assert_eq!(up_to_copy(header(0x1000, 0x0000, 0x3_0000)), BootStep::Abort(BootError::Markers));
    // Only the low byte is the marker.
    assert!(matches!(up_to_copy(header(0x1000, 0xFFFF_FF04, 0x3_0000)), BootStep::Continue { .. }));
}

#[test]
fn image_larger_than_slot() {
    assert_eq!(up_to_copy(header(0x8001, 4, 0x3_0000)), BootStep::Abort(BootError::TooLarge));
    assert!(matches!(up_to_copy(header(0x8000, 4, 0x3_0000)), BootStep::Continue { .. }));
}

#[test]
fn image_too_small() {
    assert_eq!(up_to_copy(header(63, 4, 0x3_0000)), BootStep::Abort(BootError::TooSmall));
    assert!(matches!(up_to_copy(header(64, 4, 0x3_0000)), BootStep::Continue { .. }));
}

#[test]
fn image_outside_load_range() {
    assert_eq!(
        up_to_copy(header(0x1000, 4, (LOAD_START - 4) as u32)),
        BootStep::Abort(BootError::MemoryRegion)
    );
    assert_eq!(
        up_to_copy(header(0x1000, 4, (LOAD_END - 0x800) as u32)),
        BootStep::Abort(BootError::MemoryRegion)
    );
    // The end of the image must lie strictly inside the range.
    assert_eq!(
        up_to_copy(header(0x1000, 4, (LOAD_END - 0x1000) as u32)),
        BootStep::Abort(BootError::MemoryRegion)
    );
    assert!(matches!(
        up_to_copy(header(0x1000, 4, (LOAD_END - 0x1001) as u32)),
        BootStep::Continue { .. }
    ));
    assert!(matches!(up_to_copy(header(0x1000, 4, LOAD_START as u32)), BootStep::Continue { .. }));
}

#[test]
fn check_header_detects_address_overflow() {
    let l = ImageLimits {
        slot_size: UsizeRange { start: 1, end: usize::MAX },
        load: UsizeRange { start: 0, end: usize::MAX },
    };
    let ivt = IVT { image_len: 0x100, image_type: IMAGE_TYPE_XIP_SIGNED, target_ptr: usize::MAX - 0x10 };
    assert_eq!(check_header(&l, 0x1000, &ivt), Err(BootError::TooLarge));
    let ivt = IVT { image_len: 0x100, image_type: IMAGE_TYPE_XIP_SIGNED, target_ptr: 0x10 };
    assert_eq!(check_header(&l, 0x1000, &ivt), Ok(()));
}

fn at_copy() -> (BootStage, [u8; 64]) {
    let h = header(0x100, 4, 0x3_0000);
    (stage_of(up_to_copy(h)), h)
}

#[test]
fn copy_fails() {
    let (s, _) = at_copy();
    assert_eq!(step(&limits(), s, BootEvent::IoFailed), BootStep::Abort(BootError::IO));
}

#[test]
fn copied_image_too_short_for_a_header() {
    let (s, h) = at_copy();
    assert_eq!(
        step(&limits(), s, BootEvent::ImageCopied(&h[..63])),
        BootStep::Abort(BootError::TooSmall)
    );
}

#[test]
fn copied_header_changed() {
    let (s, _) = at_copy();
    let other = header(0x100, 4, 0x3_0004);
    assert_eq!(
        step(&limits(), s, BootEvent::ImageCopied(&image(&other, 0x100))),
        BootStep::Abort(BootError::ChangeAfterRead)
    );
    let (s, _) = at_copy();
    let other = header(0x100, 0x104, 0x3_0000);
    assert_eq!(
        step(&limits(), s, BootEvent::ImageCopied(&other)),
        BootStep::Abort(BootError::ChangeAfterRead)
    );
}

#[test]
fn authentication_refused() {
    let (s, h) = at_copy();
    let s = stage_of(step(&limits(), s, BootEvent::ImageCopied(&image(&h, 0x100))));
    assert_eq!(
        step(&limits(), s, BootEvent::AuthenticationFailed(AuthenticateError::SignUnverified)),
        BootStep::Abort(BootError::Authenticate)
    );
}

#[test]
fn unrelated_event_repeats_the_request() {
    let (s, _) = at_copy();
    assert_eq!(
        step(&limits(), s, BootEvent::Authenticated),
        BootStep::Continue { stage: s, request: s.request() }
    );
    let s = stage_of(begin(2));
    assert_eq!(
        step(&limits(), s, BootEvent::IoFailed),
        BootStep::Continue { stage: s, request: BootRequest::QuerySlot { index: 2 } }
    );
}

#[test]
fn no_boot_without_authentication() {
    // Whatever is reported before, a boot only follows the ROM's approval.
    let l = limits();
    let h = header(0x100, 4, 0x3_0000);
    let ram = image(&h, 0x100);
    let events = [
        BootEvent::Authenticated,
        BootEvent::SlotFound { capacity: 0x1000 },
        BootEvent::Authenticated,
        BootEvent::HeaderRead(h),
        BootEvent::Authenticated,
        BootEvent::ImageCopied(&ram),
    ];
    let mut s = stage_of(begin(0));
    for e in events {
        s = stage_of(step(&l, s, e));
    }
    assert!(matches!(s, BootStage::Authenticate { .. }));
    assert_eq!(step(&l, s, BootEvent::Authenticated), BootStep::Boot { target: 0x3_0000 });
}

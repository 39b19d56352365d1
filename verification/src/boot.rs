use vstd::prelude::*;

use crate::ivt::IVT;
use crate::rom::AuthenticateError;

verus! {

/// Image type marker of an execute-in-place signed image (low byte of the
/// vector table's image type).
pub const IMAGE_TYPE_XIP_SIGNED: u32 = 0x0004;

/// Why the bootloader refused to boot an image.
#[derive(Clone, Copy, Debug, PartialEq, Eq, Structural)]
pub enum BootError {
    /// The requested slot does not exist.
    SlotUnknown,
    /// The slot or the image is too large, or the image does not fit in the address space.
    TooLarge,
    /// The image is smaller than the smallest image accepted.
    TooSmall,
    /// Reading the slot failed.
    IO,
    /// The image does not carry the marker of a signed image.
    Markers,
    /// The image would be loaded outside the memory allowed for images.
    MemoryRegion,
    /// The vector table in RAM differs from the one read from the slot.
    ChangeAfterRead,
    /// The ROM did not authenticate the image.
    Authenticate,
}

/// The integers `start <= x < end`.
#[derive(Clone, Copy, Debug, PartialEq, Eq, Structural)]
pub struct UsizeRange {
    pub start: usize,
    pub end: usize,
}

impl UsizeRange {
    /// Whether `x` lies in the range.
    pub open spec fn holds(self, x: int) -> bool {
        self.start <= x < self.end
    }

    /// Whether `x` lies in the range.
    pub fn contains(&self, x: usize) -> (b: bool)
        ensures
            b == self.holds(x as int),
    {
        self.start <= x && x < self.end
    }
}

/// What a board accepts of an image.
#[derive(Clone, Copy, Debug, PartialEq, Eq, Structural)]
pub struct ImageLimits {
    /// Minimum and maximum image size contained within a slot.
    pub slot_size: UsizeRange,
    /// The memory range an image is allowed to be copied to.
    pub load: UsizeRange,
}

/// Whether a slot of `capacity` bytes may be booted from at all.
pub open spec fn slot_fits(limits: ImageLimits, capacity: usize) -> bool {
    capacity < limits.slot_size.end
}

/// The verdict on the vector table `ivt` read from a slot of `slot_size`
/// bytes: the first check that fails gives the error.
pub open spec fn header_verdict(limits: ImageLimits, slot_size: usize, ivt: IVT) -> Result<
    (),
    BootError,
> {
    if ivt.image_type & 0xFF != IMAGE_TYPE_XIP_SIGNED {
        Err(BootError::Markers)
    } else if ivt.image_len > slot_size {
        Err(BootError::TooLarge)
    } else if ivt.image_len < limits.slot_size.start {
        Err(BootError::TooSmall)
    } else if ivt.target_ptr + ivt.image_len > usize::MAX {
        Err(BootError::TooLarge)
    } else if !limits.load.holds(ivt.target_ptr as int) || !limits.load.holds(
        ivt.target_ptr + ivt.image_len,
    ) {
        Err(BootError::MemoryRegion)
    } else {
        Ok(())
    }
}

/// Check the vector table `ivt` read from a slot of `slot_size` bytes
/// against the board's limits.
pub fn check_header(limits: &ImageLimits, slot_size: usize, ivt: &IVT) -> (r: Result<
    (),
    BootError,
>)
    ensures
        r == header_verdict(*limits, slot_size, *ivt),
        slot_fits(*limits, slot_size) ==> (r is Ok <==> image_accepted(*limits, slot_size, *ivt)),
        ivt.image_type % 0x100 != 4 ==> r == Err::<(), BootError>(BootError::Markers),
        ivt.image_type % 0x100 == 4 && ivt.image_len > slot_size ==> r == Err::<(), BootError>(
            BootError::TooLarge,
        ),
        ivt.image_type % 0x100 == 4 && ivt.image_len <= slot_size && ivt.image_len
            < limits.slot_size.start ==> r == Err::<(), BootError>(BootError::TooSmall),
        ivt.image_type % 0x100 == 4 && limits.slot_size.start <= ivt.image_len <= slot_size
            && ivt.target_ptr + ivt.image_len > usize::MAX ==> r == Err::<(), BootError>(
            BootError::TooLarge,
        ),
        ivt.image_type % 0x100 == 4 && limits.slot_size.start <= ivt.image_len <= slot_size
            && ivt.target_ptr + ivt.image_len <= usize::MAX && !(limits.load.start
            <= ivt.target_ptr && ivt.target_ptr + ivt.image_len < limits.load.end) ==> r == Err::<
            (),
            BootError,
        >(BootError::MemoryRegion),
{
    proof {
        let t = ivt.image_type;
        assert(t & 0xFF == t % 0x100) by (bit_vector);
        if slot_fits(*limits, slot_size) {
            lemma_header_checks_accept(*limits, slot_size, *ivt);
        }
    }
    if ivt.image_type & 0xFF != IMAGE_TYPE_XIP_SIGNED {
        return Err(BootError::Markers);
    }
    if ivt.image_len > slot_size {
        return Err(BootError::TooLarge);
    }
    if ivt.image_len < limits.slot_size.start {
        return Err(BootError::TooSmall);
    }
    let end = match ivt.target_end_ptr() {
        Some(end) => end,
        None => return Err(BootError::TooLarge),
    };
    if !limits.load.contains(ivt.target_ptr) || !limits.load.contains(end) {
        return Err(BootError::MemoryRegion);
    }
    Ok(())
}

/// Where a boot attempt stands: what it knows so far and what it waits for.
#[derive(Clone, Copy, Debug, PartialEq, Eq, Structural)]
pub enum BootStage {
    /// Waiting to learn whether slot `index` exists and how large it is.
    LocateSlot { index: usize },
    /// Waiting for the first bytes of slot `index`, of `slot_size` bytes.
    ReadHeader { index: usize, slot_size: usize },
    /// Waiting for the image of slot `index`, described by `ivt`, to be copied to its load address.
    CopyImage { index: usize, slot_size: usize, ivt: IVT },
    /// Waiting for the ROM to authenticate the copied image described by `ivt`.
    Authenticate { slot_size: usize, ivt: IVT },
}

/// Outside work that a boot attempt asks for.
#[derive(Clone, Copy, Debug, PartialEq, Eq, Structural)]
pub enum BootRequest {
    /// Look slot `index` up and report its capacity.
    QuerySlot { index: usize },
    /// Read the first [`crate::ivt::IVT_SIZE`] bytes of slot `index`.
    ReadHeader { index: usize },
    /// Copy the first `len` bytes of slot `index` to address `target`, then
    /// report the `len` bytes found at `target`.
    CopyImage { index: usize, target: usize, len: usize },
    /// Have the ROM authenticate the image of at most `len` bytes at `target`.
    Authenticate { target: usize, len: u32 },
}

/// What the outside work reported.
#[derive(Debug)]
pub enum BootEvent<'a> {
    /// The slot exists and holds `capacity` bytes.
    SlotFound { capacity: usize },
    /// The slot does not exist.
    SlotMissing,
    /// The first bytes of the slot.
    HeaderRead([u8; 64]),
    /// The copy is done; these are the bytes now at the load address.
    ImageCopied(&'a [u8]),
    /// Reading the slot failed.
    IoFailed,
    /// The ROM authenticated the image.
    Authenticated,
    /// The ROM did not authenticate the image.
    AuthenticationFailed(AuthenticateError),
}

/// Where a boot attempt goes next.
#[derive(Clone, Copy, Debug, PartialEq, Eq, Structural)]
pub enum BootStep {
    /// The attempt goes on in `stage`, once `request` has been carried out.
    Continue { stage: BootStage, request: BootRequest },
    /// Jump to the image at `target`.
    Boot { target: usize },
    /// The attempt failed.
    Abort(BootError),
}

/// The outside work that `stage` waits for.
pub open spec fn stage_request(stage: BootStage) -> BootRequest {
    match stage {
        BootStage::LocateSlot { index } => BootRequest::QuerySlot { index },
        BootStage::ReadHeader { index, .. } => BootRequest::ReadHeader { index },
        BootStage::CopyImage { index, ivt, .. } => BootRequest::CopyImage {
            index,
            target: ivt.target_ptr,
            len: ivt.image_len,
        },
        BootStage::Authenticate { ivt, .. } => BootRequest::Authenticate {
            target: ivt.target_ptr,
            len: ivt.image_len as u32,
        },
    }
}

/// Go on in `stage` once its request has been carried out.
pub open spec fn continue_in(stage: BootStage) -> BootStep {
    BootStep::Continue { stage, request: stage_request(stage) }
}

/// The first step of an attempt to boot slot number `slot`.
pub open spec fn first_step(slot: u8) -> BootStep {
    continue_in(BootStage::LocateSlot { index: slot as usize })
}

/// The step a boot attempt takes in `stage` when `event` is reported. An
/// event that does not answer the stage's request leaves the stage as it is.
pub open spec fn next_step(limits: ImageLimits, stage: BootStage, event: BootEvent) -> BootStep {
    match stage {
        BootStage::LocateSlot { index } => match event {
            BootEvent::SlotFound { capacity } => if slot_fits(limits, capacity) {
                continue_in(BootStage::ReadHeader { index, slot_size: capacity })
            } else {
                BootStep::Abort(BootError::TooLarge)
            },
            BootEvent::SlotMissing => BootStep::Abort(BootError::SlotUnknown),
            _ => continue_in(stage),
        },
        BootStage::ReadHeader { index, slot_size } => match event {
            BootEvent::HeaderRead(bytes) => {
                let ivt = crate::ivt::ivt_of(bytes@);
                match header_verdict(limits, slot_size, ivt) {
                    Ok(()) => continue_in(BootStage::CopyImage { index, slot_size, ivt }),
                    Err(e) => BootStep::Abort(e),
                }
            },
            BootEvent::IoFailed => BootStep::Abort(BootError::IO),
            _ => continue_in(stage),
        },
        BootStage::CopyImage { slot_size, ivt, .. } => match event {
            BootEvent::ImageCopied(ram) => if ram@.len() < crate::ivt::IVT_SIZE {
                BootStep::Abort(BootError::TooSmall)
            } else if crate::ivt::ivt_of(ram@) != ivt {
                BootStep::Abort(BootError::ChangeAfterRead)
            } else {
                continue_in(BootStage::Authenticate { slot_size, ivt })
            },
            BootEvent::IoFailed => BootStep::Abort(BootError::IO),
            _ => continue_in(stage),
        },
        BootStage::Authenticate { ivt, .. } => match event {
            BootEvent::Authenticated => BootStep::Boot { target: ivt.target_ptr },
            BootEvent::AuthenticationFailed(_) => BootStep::Abort(BootError::Authenticate),
            _ => continue_in(stage),
        },
    }
}

impl BootStage {
    /// The request that `self` waits for.
    pub fn request(&self) -> (r: BootRequest)
        ensures
            r == stage_request(*self),
            request_slot(r) == stage_slot(*self),
            request_fits_stage(*self, r),
    {
        match *self {
            BootStage::LocateSlot { index } => BootRequest::QuerySlot { index },
            BootStage::ReadHeader { index, .. } => BootRequest::ReadHeader { index },
            BootStage::CopyImage { index, ivt, .. } => BootRequest::CopyImage {
                index,
                target: ivt.target_ptr,
                len: ivt.image_len,
            },
            BootStage::Authenticate { ivt, .. } => BootRequest::Authenticate {
                target: ivt.target_ptr,
                len: ivt.image_len as u32,
            },
        }
    }
}

fn continue_with(stage: BootStage) -> (s: BootStep)
    ensures
        s == continue_in(stage),
{
    let request = stage.request();
    BootStep::Continue { stage, request }
}

/// Start an attempt to boot slot number `slot`.
pub fn begin(slot: u8) -> (s: BootStep)
    ensures
        s == first_step(slot),
{
    continue_with(BootStage::LocateSlot { index: slot as usize })
}

/// Take the step of a boot attempt in `stage` once `event` has been reported.
pub fn step(limits: &ImageLimits, stage: BootStage, event: BootEvent) -> (s: BootStep)
    ensures
        s == next_step(*limits, stage, event),
        stage is Authenticate && event is AuthenticationFailed ==> s == BootStep::Abort(
            BootError::Authenticate,
        ),
        stage matches BootStage::Authenticate { ivt, .. } ==> (event is Authenticated ==> s
            == (BootStep::Boot { target: ivt.target_ptr })),
        s is Boot ==> stage is Authenticate && event is Authenticated,
        stage is LocateSlot && event is SlotMissing ==> s == BootStep::Abort(BootError::SlotUnknown),
        stage matches BootStage::LocateSlot { index } ==> (event matches BootEvent::SlotFound {
            capacity,
        } ==> (capacity >= limits.slot_size.end ==> s == BootStep::Abort(BootError::TooLarge)) && (
        capacity < limits.slot_size.end ==> s == (BootStep::Continue {
            stage: BootStage::ReadHeader { index, slot_size: capacity },
            request: BootRequest::ReadHeader { index },
        }))),
        (stage is ReadHeader || stage is CopyImage) && event is IoFailed ==> s == BootStep::Abort(
            BootError::IO,
        ),
        stage matches BootStage::ReadHeader { slot_size, .. } ==> (event matches BootEvent::HeaderRead(
            bytes,
        ) ==> (s matches BootStep::Abort(e) ==> Err::<(), BootError>(e) == header_verdict(
            *limits,
            slot_size,
            crate::ivt::ivt_of(bytes@),
        )) && (slot_fits(*limits, slot_size) ==> (s is Continue <==> image_accepted(
            *limits,
            slot_size,
            crate::ivt::ivt_of(bytes@),
        )))),
        stage matches BootStage::CopyImage { ivt, .. } ==> (event matches BootEvent::ImageCopied(
            ram,
        ) ==> {
            &&& ram@.len() < 64 ==> s == BootStep::Abort(BootError::TooSmall)
            &&& (s is Continue <==> ram@.len() >= 64 && crate::ivt::ivt_of(ram@) == ivt)
            &&& ram@.len() >= 64 && crate::ivt::ivt_of(ram@) != ivt ==> s == BootStep::Abort(
                BootError::ChangeAfterRead,
            )
        }),
        !event_answers(stage, event) ==> s == (BootStep::Continue {
            stage,
            request: stage_request(stage),
        }),
        s matches BootStep::Continue { stage: next, request } ==> {
            &&& stays_on_slot(stage_slot(next), stage_slot(stage))
            &&& stays_on_slot(request_slot(request), stage_slot(stage))
            &&& request_fits_stage(next, request)
        },
{
    match stage {
        BootStage::LocateSlot { index } => match event {
            BootEvent::SlotFound { capacity } => {
                if capacity >= limits.slot_size.end {
                    BootStep::Abort(BootError::TooLarge)
                } else {
                    continue_with(BootStage::ReadHeader { index, slot_size: capacity })
                }
            },
            BootEvent::SlotMissing => BootStep::Abort(BootError::SlotUnknown),
            _ => continue_with(stage),
        },
        BootStage::ReadHeader { index, slot_size } => match event {
            BootEvent::HeaderRead(bytes) => {
                let ivt = IVT::read(&bytes);
                proof {
                    if slot_fits(*limits, slot_size) {
                        lemma_header_checks_accept(*limits, slot_size, ivt);
                    }
                }
                match check_header(limits, slot_size, &ivt) {
                    Ok(()) => continue_with(BootStage::CopyImage { index, slot_size, ivt }),
                    Err(e) => BootStep::Abort(e),
                }
            },
            BootEvent::IoFailed => BootStep::Abort(BootError::IO),
            _ => continue_with(stage),
        },
        BootStage::CopyImage { slot_size, ivt, .. } => match event {
            BootEvent::ImageCopied(ram) => match IVT::read_from_slice(ram) {
                Err(_) => BootStep::Abort(BootError::TooSmall),
                Ok(ram_ivt) => {
                    if ram_ivt != ivt {
                        BootStep::Abort(BootError::ChangeAfterRead)
                    } else {
                        continue_with(BootStage::Authenticate { slot_size, ivt: ram_ivt })
                    }
                },
            },
            BootEvent::IoFailed => BootStep::Abort(BootError::IO),
            _ => continue_with(stage),
        },
        BootStage::Authenticate { ivt, .. } => match event {
            BootEvent::Authenticated => BootStep::Boot { target: ivt.target_ptr },
            BootEvent::AuthenticationFailed(_) => BootStep::Abort(BootError::Authenticate),
            _ => continue_with(stage),
        },
    }
}

/// What the bootloader demands of an image before it copies it: the signed
/// image marker, a length within the slot and within the size limits, and a
/// load range `[target, target + len]` inside the memory allowed for images.
pub open spec fn image_accepted(limits: ImageLimits, slot_size: usize, ivt: IVT) -> bool {
    &&& ivt.image_type % 0x100 == IMAGE_TYPE_XIP_SIGNED
    &&& limits.slot_size.start <= ivt.image_len <= slot_size < limits.slot_size.end
    &&& limits.load.start <= ivt.target_ptr
    &&& ivt.target_ptr + ivt.image_len < limits.load.end
}

/// What holds of every stage that a boot attempt reaches.
pub open spec fn stage_sound(limits: ImageLimits, stage: BootStage) -> bool {
    match stage {
        BootStage::LocateSlot { .. } => true,
        BootStage::ReadHeader { slot_size, .. } => slot_fits(limits, slot_size),
        BootStage::CopyImage { slot_size, ivt, .. } => image_accepted(limits, slot_size, ivt),
        BootStage::Authenticate { slot_size, ivt } => image_accepted(limits, slot_size, ivt),
    }
}

/// The step a boot attempt reaches from `stage` when `events` are reported
/// one after the other; it stops at the first boot or abort.
pub open spec fn run(limits: ImageLimits, stage: BootStage, events: Seq<BootEvent>) -> BootStep
    decreases events.len(),
{
    if events.len() == 0 {
        continue_in(stage)
    } else {
        match next_step(limits, stage, events[0]) {
            BootStep::Continue { stage: next, .. } => run(limits, next, events.drop_first()),
            done => done,
        }
    }
}

/// A vector table passes the checks exactly when the image is accepted, on a
/// slot that may be booted from.
pub proof fn lemma_header_checks_accept(limits: ImageLimits, slot_size: usize, ivt: IVT)
    requires
        slot_fits(limits, slot_size),
    ensures
        header_verdict(limits, slot_size, ivt) is Ok <==> image_accepted(limits, slot_size, ivt),
{
    let t = ivt.image_type;
    assert(t & 0xFF == t % 0x100) by (bit_vector);
}

/// An attempt starts in a sound stage, asking for slot `slot`.
pub proof fn lemma_first_step_sound(limits: ImageLimits, slot: u8)
    ensures
        first_step(slot) matches BootStep::Continue { stage, request } && stage_sound(limits, stage)
            && request == (BootRequest::QuerySlot { index: slot as usize }),
{
}

/// Each step from a sound stage leads to a sound stage, and asks for what
/// that stage waits for.
pub proof fn lemma_step_keeps_soundness(limits: ImageLimits, stage: BootStage, event: BootEvent)
    requires
        stage_sound(limits, stage),
    ensures
        next_step(limits, stage, event) matches BootStep::Continue { stage: next, request } ==> (
        stage_sound(limits, next) && request == stage_request(next)),
{
    if let BootStage::ReadHeader { index, slot_size } = stage {
        if let BootEvent::HeaderRead(bytes) = event {
            lemma_header_checks_accept(limits, slot_size, crate::ivt::ivt_of(bytes@));
        }
    }
}

/// The copy that a sound stage asks for writes only inside the memory allowed
/// for images, and never more bytes than the slot holds.
pub proof fn lemma_copy_stays_in_load_range(limits: ImageLimits, stage: BootStage)
    requires
        stage_sound(limits, stage),
    ensures
        stage_request(stage) matches BootRequest::CopyImage { target, len, .. } ==> {
            &&& limits.load.start <= target
            &&& target + len < limits.load.end
            &&& stage matches BootStage::CopyImage { slot_size, .. } && len <= slot_size
        },
{
}

/// From a sound stage, a step boots only the image of the stage that waits
/// for authentication, once the ROM has authenticated it, and jumps to the
/// address that image was checked to load at.
pub proof fn lemma_boot_needs_authentication(
    limits: ImageLimits,
    stage: BootStage,
    event: BootEvent,
)
    requires
        stage_sound(limits, stage),
    ensures
        next_step(limits, stage, event) matches BootStep::Boot { target } ==> {
            &&& event is Authenticated
            &&& stage matches BootStage::Authenticate { slot_size, ivt } && target == ivt.target_ptr
                && image_accepted(limits, slot_size, ivt)
        },
{
}

/// Whatever is reported, a boot attempt from a sound stage jumps only to an
/// accepted image that the ROM authenticated along the way.
pub proof fn lemma_run_boots_only_accepted_images(
    limits: ImageLimits,
    stage: BootStage,
    events: Seq<BootEvent>,
)
    requires
        stage_sound(limits, stage),
    ensures
        run(limits, stage, events) matches BootStep::Boot { target } ==> {
            &&& exists|slot_size: usize, ivt: IVT|
                image_accepted(limits, slot_size, ivt) && target == ivt.target_ptr
            &&& exists|i: int| 0 <= i < events.len() && (#[trigger] events[i]) is Authenticated
        },
    decreases events.len(),
{
    if events.len() > 0 {
        lemma_step_keeps_soundness(limits, stage, events[0]);
        lemma_boot_needs_authentication(limits, stage, events[0]);
        match next_step(limits, stage, events[0]) {
            BootStep::Continue { stage: next, .. } => {
                let rest = events.drop_first();
                lemma_run_boots_only_accepted_images(limits, next, rest);
                if let BootStep::Boot { target } = run(limits, next, rest) {
                    let i = choose|i: int| 0 <= i < rest.len() && (#[trigger] rest[i]) is Authenticated;
                    assert(events[i + 1] == rest[i]);
                }
            },
            BootStep::Boot { target } => {
                if let BootStage::Authenticate { slot_size, ivt } = stage {
                    assert(image_accepted(limits, slot_size, ivt) && target == ivt.target_ptr);
                }
                assert(events[0] is Authenticated);
            },
            _ => {},
        }
    }
}

/// An attempt to boot any slot, whatever is reported, jumps only to an
/// accepted image that the ROM authenticated along the way.
pub proof fn lemma_boot_attempt_is_safe(limits: ImageLimits, slot: u8, events: Seq<BootEvent>)
    ensures
        run(limits, BootStage::LocateSlot { index: slot as usize }, events) matches BootStep::Boot {
            target,
        } ==> {
            &&& exists|slot_size: usize, ivt: IVT|
                image_accepted(limits, slot_size, ivt) && target == ivt.target_ptr
            &&& exists|i: int| 0 <= i < events.len() && (#[trigger] events[i]) is Authenticated
        },
{
    lemma_run_boots_only_accepted_images(limits, BootStage::LocateSlot { index: slot as usize }, events);
}

/// The slot a stage works on; the stage that waits for authentication no
/// longer reads any slot.
pub open spec fn stage_slot(stage: BootStage) -> Option<usize> {
    match stage {
        BootStage::LocateSlot { index } => Some(index),
        BootStage::ReadHeader { index, .. } => Some(index),
        BootStage::CopyImage { index, .. } => Some(index),
        BootStage::Authenticate { .. } => None,
    }
}

/// The slot a request reads, if it reads one.
pub open spec fn request_slot(request: BootRequest) -> Option<usize> {
    match request {
        BootRequest::QuerySlot { index } => Some(index),
        BootRequest::ReadHeader { index } => Some(index),
        BootRequest::CopyImage { index, .. } => Some(index),
        BootRequest::Authenticate { .. } => None,
    }
}

/// Either no slot at all, or the slot `slot`.
pub open spec fn stays_on_slot(s: Option<usize>, slot: Option<usize>) -> bool {
    s is None || s == slot
}

/// `request` is the kind of work `stage` waits for, and a copy or an
/// authentication covers exactly the image described by the stage's table.
pub open spec fn request_fits_stage(stage: BootStage, request: BootRequest) -> bool {
    match stage {
        BootStage::LocateSlot { .. } => request is QuerySlot,
        BootStage::ReadHeader { .. } => request is ReadHeader,
        BootStage::CopyImage { ivt, .. } => request matches BootRequest::CopyImage {
            target,
            len,
            ..
        } && target == ivt.target_ptr && len == ivt.image_len,
        BootStage::Authenticate { ivt, .. } => request matches BootRequest::Authenticate {
            target,
            len,
        } && target == ivt.target_ptr && len == ivt.image_len as u32,
    }
}

/// What a stage asks for names the slot the stage works on, is the kind of
/// work the stage waits for, and covers exactly the image the stage checked.
pub proof fn lemma_request_names_stage_slot(stage: BootStage)
    ensures
        request_slot(stage_request(stage)) == stage_slot(stage),
        request_fits_stage(stage, stage_request(stage)),
{
}

/// Whatever error the ROM gives, a refused authentication ends the attempt
/// with `Authenticate`; an accepted one boots the checked load address.
pub proof fn lemma_authentication_outcome_decides(
    limits: ImageLimits,
    slot_size: usize,
    ivt: IVT,
    error: AuthenticateError,
)
    ensures
        next_step(limits, BootStage::Authenticate { slot_size, ivt }, BootEvent::AuthenticationFailed(error))
            == BootStep::Abort(BootError::Authenticate),
        next_step(limits, BootStage::Authenticate { slot_size, ivt }, BootEvent::Authenticated)
            == (BootStep::Boot { target: ivt.target_ptr }),
{
}

/// A step never moves an attempt to another slot: the next stage and its
/// request name the slot of the current stage, or none.
pub proof fn lemma_step_keeps_slot(limits: ImageLimits, stage: BootStage, event: BootEvent)
    ensures
        next_step(limits, stage, event) matches BootStep::Continue { stage: next, request } ==> {
            &&& stays_on_slot(stage_slot(next), stage_slot(stage))
            &&& stays_on_slot(request_slot(request), stage_slot(stage))
            &&& request_fits_stage(next, request)
        },
{
}

/// From a stage on slot `slot` (or on none), whatever is reported, the
/// attempt stays on that slot.
pub proof fn lemma_run_keeps_slot(
    limits: ImageLimits,
    stage: BootStage,
    events: Seq<BootEvent>,
    slot: usize,
)
    requires
        stays_on_slot(stage_slot(stage), Some(slot)),
    ensures
        run(limits, stage, events) matches BootStep::Continue { stage: last, request } ==> {
            &&& stays_on_slot(stage_slot(last), Some(slot))
            &&& stays_on_slot(request_slot(request), Some(slot))
        },
    decreases events.len(),
{
    if events.len() > 0 {
        lemma_step_keeps_slot(limits, stage, events[0]);
        if let BootStep::Continue { stage: next, .. } = next_step(limits, stage, events[0]) {
            lemma_run_keeps_slot(limits, next, events.drop_first(), slot);
        }
    }
}

/// An attempt to boot slot `n` asks to look up, read and copy slot `n` only,
/// at every point, whatever is reported along the way.
pub proof fn lemma_attempt_reads_only_its_slot(limits: ImageLimits, n: u8, events: Seq<BootEvent>)
    ensures
        forall|k: int|
            0 <= k <= events.len() ==> ((#[trigger] run(
                limits,
                BootStage::LocateSlot { index: n as usize },
                events.take(k),
            )) matches BootStep::Continue { request, .. } ==> stays_on_slot(
                request_slot(request),
                Some(n as usize),
            )),
{
    assert forall|k: int| 0 <= k <= events.len() implies ((#[trigger] run(
        limits,
        BootStage::LocateSlot { index: n as usize },
        events.take(k),
    )) matches BootStep::Continue { request, .. } ==> stays_on_slot(
        request_slot(request),
        Some(n as usize),
    )) by {
        lemma_run_keeps_slot(limits, BootStage::LocateSlot { index: n as usize }, events.take(k), n as usize);
    }
}

/// Whether `event` is one of the reports that answer what `stage` waits for.
pub open spec fn event_answers(stage: BootStage, event: BootEvent) -> bool {
    match stage {
        BootStage::LocateSlot { .. } => event is SlotFound || event is SlotMissing,
        BootStage::ReadHeader { .. } => event is HeaderRead || event is IoFailed,
        BootStage::CopyImage { .. } => event is ImageCopied || event is IoFailed,
        BootStage::Authenticate { .. } => event is Authenticated || event is AuthenticationFailed,
    }
}

} // verus!

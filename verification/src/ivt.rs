use vstd::prelude::*;

verus! {

/// Number of bytes an image vector table occupies at the start of an image.
pub const IVT_SIZE: usize = 64;

/// Offset of the image length field within the image vector table.
pub const IMAGE_LEN_OFFSET: usize = 0x20;

/// Offset of the image type field within the image vector table.
pub const IMAGE_TYPE_OFFSET: usize = 0x24;

/// Offset of the load address field within the image vector table.
pub const TARGET_PTR_OFFSET: usize = 0x34;

/// The little-endian 32-bit word stored in `bytes[at..at + 4]`.
pub open spec fn le_u32_at(bytes: Seq<u8>, at: int) -> int {
    bytes[at] + bytes[at + 1] * 0x100 + bytes[at + 2] * 0x1_0000 + bytes[at + 3] * 0x100_0000
}

/// The fields of the image vector table at the start of an image, as read
/// from its first [`IVT_SIZE`] bytes `bytes`.
pub open spec fn ivt_of(bytes: Seq<u8>) -> IVT {
    IVT {
        image_len: le_u32_at(bytes, IMAGE_LEN_OFFSET as int) as usize,
        image_type: le_u32_at(bytes, IMAGE_TYPE_OFFSET as int) as u32,
        target_ptr: le_u32_at(bytes, TARGET_PTR_OFFSET as int) as usize,
    }
}

/// The image vector table of a signed image: how long the image is, what
/// kind of image it is, and the address it is meant to run from.
#[derive(Clone, Copy, Debug, PartialEq, Eq, Structural)]
pub struct IVT {
    /// Length of the whole image in bytes.
    pub image_len: usize,
    /// Image type; its low byte holds the marker of the image kind.
    pub image_type: u32,
    /// Address the image is loaded to and run from.
    pub target_ptr: usize,
}

/// The slice handed to [`IVT::read_from_slice`] is shorter than a vector table.
#[derive(Clone, Copy, Debug, PartialEq, Eq, Structural)]
pub struct BufferTooSmall;

/// The little-endian word at `data[at..at + 4]`.
fn read_le_u32(data: &[u8], at: usize) -> (v: u32)
    requires
        at + 4 <= data@.len(),
    ensures
        v == le_u32_at(data@, at as int),
{
    let b0 = data[at] as u32;
    let b1 = data[at + 1] as u32;
    let b2 = data[at + 2] as u32;
    let b3 = data[at + 3] as u32;
    b0 + b1 * 0x100 + b2 * 0x1_0000 + b3 * 0x100_0000
}

impl IVT {
    /// Read the vector table from the start of `data`, which must hold at
    /// least [`IVT_SIZE`] bytes.
    pub fn read_from_slice(data: &[u8]) -> (r: Result<IVT, BufferTooSmall>)
        ensures
            data@.len() < IVT_SIZE ==> r == Err::<IVT, BufferTooSmall>(BufferTooSmall),
            data@.len() >= IVT_SIZE ==> r == Ok::<IVT, BufferTooSmall>(ivt_of(data@)),
            r matches Ok(ivt) ==> header_fields_hold(data@, ivt),
    {
        if data.len() < IVT_SIZE {
            return Err(BufferTooSmall);
        }
        Ok(IVT {
            image_len: read_le_u32(data, IMAGE_LEN_OFFSET) as usize,
            image_type: read_le_u32(data, IMAGE_TYPE_OFFSET),
            target_ptr: read_le_u32(data, TARGET_PTR_OFFSET) as usize,
        })
    }

    /// Read the vector table from the [`IVT_SIZE`] bytes at the start of a slot.
    pub fn read(header: &[u8; 64]) -> (ivt: IVT)
        ensures
            ivt == ivt_of(header@),
            header_fields_hold(header@, ivt),
    {
        let data = header.as_slice();
        IVT {
            image_len: read_le_u32(data, IMAGE_LEN_OFFSET) as usize,
            image_type: read_le_u32(data, IMAGE_TYPE_OFFSET),
            target_ptr: read_le_u32(data, TARGET_PTR_OFFSET) as usize,
        }
    }

    /// The address one past the end of the image once loaded, or `None` where
    /// that address does not fit in a `usize`.
    pub fn target_end_ptr(&self) -> (end: Option<usize>)
        ensures
            self.target_ptr + self.image_len <= usize::MAX ==> end == Some(
                (self.target_ptr + self.image_len) as usize,
            ),
            self.target_ptr + self.image_len > usize::MAX ==> end is None,
    {
        self.target_ptr.checked_add(self.image_len)
    }
}

/// Only the first [`IVT_SIZE`] bytes of an image decide its vector table.
pub proof fn lemma_ivt_of_header_prefix(bytes: Seq<u8>)
    requires
        bytes.len() >= IVT_SIZE,
    ensures
        ivt_of(bytes) == ivt_of(bytes.take(IVT_SIZE as int)),
{
    let h = bytes.take(IVT_SIZE as int);
    assert(forall|i: int| 0 <= i < IVT_SIZE ==> h[i] == bytes[i]);
}

/// The fields of `ivt` are the whole little-endian words at offsets 0x20
/// (image length), 0x24 (image type) and 0x34 (load address) of `bytes`.
pub open spec fn header_fields_hold(bytes: Seq<u8>, ivt: IVT) -> bool {
    &&& ivt.image_len == bytes[0x20] + bytes[0x21] * 256 + bytes[0x22] * 65536 + bytes[0x23]
        * 16777216
    &&& ivt.image_type == bytes[0x24] + bytes[0x25] * 256 + bytes[0x26] * 65536 + bytes[0x27]
        * 16777216
    &&& ivt.target_ptr == bytes[0x34] + bytes[0x35] * 256 + bytes[0x36] * 65536 + bytes[0x37]
        * 16777216
}

/// The vector table read from a header holds the header's whole little-endian
/// words: no byte of the length, type or load address words is dropped.
pub proof fn lemma_ivt_of_reads_whole_words(bytes: Seq<u8>)
    requires
        bytes.len() >= IVT_SIZE,
    ensures
        header_fields_hold(bytes, ivt_of(bytes)),
{
}

/// Two headers give the same vector table exactly when they agree on the
/// bytes of the length, type and load address words.
pub proof fn lemma_ivt_of_depends_on_field_bytes(a: Seq<u8>, b: Seq<u8>)
    requires
        a.len() >= IVT_SIZE,
        b.len() >= IVT_SIZE,
    ensures
        ivt_of(a) == ivt_of(b) <==> (forall|i: int|
            (0x20 <= i < 0x28 || 0x34 <= i < 0x38) ==> a[i] == b[i]),
{
    if ivt_of(a) == ivt_of(b) {
        assert forall|i: int| (0x20 <= i < 0x28 || 0x34 <= i < 0x38) implies a[i] == b[i] by {
            let (x0, x1, x2, x3, y0, y1, y2, y3): (u8, u8, u8, u8, u8, u8, u8, u8) =
                if 0x20 <= i < 0x24 {
                    (a[0x20], a[0x21], a[0x22], a[0x23], b[0x20], b[0x21], b[0x22], b[0x23])
                } else if 0x24 <= i < 0x28 {
                    (a[0x24], a[0x25], a[0x26], a[0x27], b[0x24], b[0x25], b[0x26], b[0x27])
                } else {
                    (a[0x34], a[0x35], a[0x36], a[0x37], b[0x34], b[0x35], b[0x36], b[0x37])
                };
            lemma_le_word_bytes_unique(x0, x1, x2, x3, y0, y1, y2, y3);
        }
    }
}

/// A little-endian word determines its four bytes.
proof fn lemma_le_word_bytes_unique(
    x0: u8,
    x1: u8,
    x2: u8,
    x3: u8,
    y0: u8,
    y1: u8,
    y2: u8,
    y3: u8,
)
    requires
        x0 + x1 * 256 + x2 * 65536 + x3 * 16777216 == y0 + y1 * 256 + y2 * 65536 + y3 * 16777216,
    ensures
        x0 == y0 && x1 == y1 && x2 == y2 && x3 == y3,
{
    assert(x0 + x1 * 256 + x2 * 65536 + x3 * 16777216 == y0 + y1 * 256 + y2 * 65536 + y3
        * 16777216 ==> x0 == y0 && x1 == y1 && x2 == y2 && x3 == y3) by (bit_vector);
}

} // verus!

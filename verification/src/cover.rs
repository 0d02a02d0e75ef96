//! The pixel size of a cover, read from the header of its image.

use vstd::prelude::*;

verus! {

/// The width and height, in this order, that `imagesize::blob_size` reads from the
/// header of the image `data`; `None` where it reads none.
pub uninterp spec fn image_dimensions(data: Seq<u8>) -> Option<(usize, usize)>;

/// Whether `data` starts as an ISO base media file does, with `ftyp` from its fifth
/// byte on: what is measured as a HEIF image, unless another format claims it first.
pub open spec fn is_iso_media(data: Seq<u8>) -> bool {
    &&& data.len() >= 12
    &&& data[4] == 0x66
    &&& data[5] == 0x74
    &&& data[6] == 0x79
    &&& data[7] == 0x70
}

/// Whether measuring `data` is free of overflow: the data is no longer than a native
/// cover can be, and the width and height of a HEIF image, 32 bits each, are multiplied
/// only where `usize` holds their product.
pub open spec fn can_measure(data: Seq<u8>) -> bool {
    &&& data.len() <= u32::MAX
    &&& usize::BITS >= 64 || !is_iso_media(data)
}

/// What `measure` reads from `data`.
pub open spec fn measured(data: Seq<u8>) -> Option<(usize, usize)> {
    if can_measure(data) {
        image_dimensions(data)
    } else {
        None
    }
}

/// The cover width and height of a snapshot: the measured ones, cut to 32 bits as a
/// cast cuts them, and 0 where nothing was measured.
pub open spec fn spec_cover_size(dimensions: Option<(usize, usize)>) -> (i32, i32) {
    match dimensions {
        Some((width, height)) => (width as i32, height as i32),
        None => (0, 0),
    }
}

/// `imagesize::blob_size`, with its result taken apart: width and height on success,
/// `None` for each of its errors. It reads `data` through a cursor and nothing else, so
/// the result is a function of the bytes, named by `image_dimensions`. Its arithmetic
/// stays in range on the inputs that `can_measure` admits.
#[verifier::external_body]
fn blob_size(data: &[u8]) -> (dimensions: Option<(usize, usize)>)
    requires
        can_measure(data@),
    ensures
        dimensions == image_dimensions(data@),
{
    match imagesize::blob_size(data) {
        Ok(size) => Some((size.width, size.height)),
        Err(_) => None,
    }
}

/// Whether `data` starts as an ISO base media file does.
fn starts_as_iso_media(data: &[u8]) -> (is: bool)
    ensures
        is == is_iso_media(data@),
{
    data.len() >= 12 && data[4] == 0x66 && data[5] == 0x74 && data[6] == 0x79 && data[7] == 0x70
}

/// Reads the width and height of an image from its header bytes. `None` where the
/// header is corrupt or of no known format, and where `can_measure` does not hold.
pub fn measure(data: &[u8]) -> (dimensions: Option<(usize, usize)>)
    ensures
        dimensions == measured(data@),
{
    if data.len() > u32::MAX as usize {
        None
    } else if usize::BITS < 64 && starts_as_iso_media(data) {
        None
    } else {
        blob_size(data)
    }
}

/// The cover width and height that a snapshot stores for what was measured.
pub fn cover_size(dimensions: Option<(usize, usize)>) -> (size: (i32, i32))
    ensures
        size == spec_cover_size(dimensions),
        dimensions is None ==> size == (0i32, 0i32),
        dimensions matches Some((width, height)) ==> {
            &&& width <= i32::MAX ==> size.0 == width
            &&& height <= i32::MAX ==> size.1 == height
        },
{
    match dimensions {
        Some((width, height)) => (
            #[verifier::truncate]
            (width as i32),
            #[verifier::truncate]
            (height as i32),
        ),
        None => (0, 0),
    }
}

} // verus!

//! Validation of ICO files before they are handed to the native icon API:
//! the header, the directory of images, and that every image lies inside
//! the data after the directory.

use vstd::prelude::*;

verus! {

/// The size of the ICO header.
pub const ICONDIR_SIZE: usize = 6;
/// The size of one directory entry.
pub const ICONDIRENTRY_SIZE: usize = 16;

/// The little-endian value of two bytes.
pub open spec fn le16(b0: u8, b1: u8) -> nat {
    (b0 as nat) + 256 * (b1 as nat)
}

/// The little-endian value of four bytes.
pub open spec fn le32(b0: u8, b1: u8, b2: u8, b3: u8) -> nat {
    (b0 as nat) + 256 * (b1 as nat) + 65536 * (b2 as nat) + 16777216 * (b3 as nat)
}

/// The number of images an ICO header announces.
pub open spec fn announced_images(d: Seq<u8>) -> nat {
    le16(d[4], d[5])
}

/// The size of the image of directory entry `i`.
pub open spec fn entry_size(d: Seq<u8>, i: int) -> nat {
    let s = 6 + 16 * i;
    le32(d[s + 8], d[s + 9], d[s + 10], d[s + 11])
}

/// The offset of the image of directory entry `i`.
pub open spec fn entry_offset(d: Seq<u8>, i: int) -> nat {
    let s = 6 + 16 * i;
    le32(d[s + 12], d[s + 13], d[s + 14], d[s + 15])
}

/// A well-formed ICO file: reserved zero and icon type one in the header,
/// at least one image, the whole directory present, and every image
/// non-empty and lying after the directory and inside the data.
pub open spec fn valid_ico(d: Seq<u8>) -> bool {
    &&& d.len() >= 6
    &&& d[0] == 0 && d[1] == 0 && d[2] == 1 && d[3] == 0
    &&& announced_images(d) > 0
    &&& 6 + 16 * announced_images(d) <= d.len()
    &&& forall|i: int|
        0 <= i < announced_images(d) ==> {
            &&& #[trigger] entry_size(d, i) > 0
            &&& entry_offset(d, i) >= 6 + 16 * announced_images(d)
            &&& entry_offset(d, i) + entry_size(d, i) <= d.len()
        }
}

/// The little-endian value of four bytes of `data` at `at`.
fn read_le32(data: &[u8], at: usize) -> (r: u32)
    requires
        at + 4 <= data@.len(),
    ensures
        r == le32(data@[at as int], data@[at + 1], data@[at + 2], data@[at + 3]),
{
    let b0 = data[at] as u32;
    let b1 = data[at + 1] as u32;
    let b2 = data[at + 2] as u32;
    let b3 = data[at + 3] as u32;
    b0 + 256 * b1 + 65536 * b2 + 16777216 * b3
}

/// Whether `data` is a well-formed ICO file whose images all lie inside it.
pub fn is_valid_ico(data: &[u8]) -> (r: bool)
    ensures
        r == valid_ico(data@),
{
    let len = data.len();
    if len < ICONDIR_SIZE || data[0] != 0 || data[1] != 0 || data[2] != 1 || data[3] != 0 {
        return false;
    }
    let image_count: usize = (data[4] as usize) + 256 * (data[5] as usize);
    // At most 65535 entries, so the directory size cannot overflow.
    let directory_size: usize = ICONDIR_SIZE + image_count * ICONDIRENTRY_SIZE;
    if image_count == 0 || directory_size > len {
        proof {
            if image_count > 0 {
                assert(6 + 16 * image_count > len);
            }
        }
        return false;
    }
    let mut entry_index: usize = 0;
    while entry_index < image_count
        invariant
            len == data@.len(),
            image_count == announced_images(data@),
            directory_size == 6 + 16 * image_count,
            directory_size <= len,
            entry_index <= image_count,
            forall|i: int|
                0 <= i < entry_index ==> {
                    &&& #[trigger] entry_size(data@, i) > 0
                    &&& entry_offset(data@, i) >= directory_size
                    &&& entry_offset(data@, i) + entry_size(data@, i) <= len
                },
        decreases image_count - entry_index,
    {
        let entry_start = ICONDIR_SIZE + entry_index * ICONDIRENTRY_SIZE;
        let image_size = read_le32(data, entry_start + 8) as usize;
        let image_offset = read_le32(data, entry_start + 12) as usize;
        let fits = match image_offset.checked_add(image_size) {
            Some(end) => end <= len,
            None => false,
        };
        if image_size == 0 || image_offset < directory_size || !fits {
            proof {
                let i = entry_index as int;
                assert(entry_size(data@, i) == image_size);
                assert(entry_offset(data@, i) == image_offset);
                assert(!valid_ico(data@));
            }
            return false;
        }
        entry_index = entry_index + 1;
    }
    true
}

/// An ICO header is 6 bytes and each directory entry 16 bytes.
pub proof fn law_ico_constants()
    ensures
        ICONDIR_SIZE == 6,
        ICONDIRENTRY_SIZE == 16,
{
}

} // verus!

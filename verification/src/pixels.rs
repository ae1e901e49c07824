//! Pixel buffers: RGBA images read back from GPU textures with padded rows,
//! and tray icon pixmaps in the ARGB byte order of StatusNotifierItem hosts.

use vstd::prelude::*;
use crate::text::{decimal_seq, push_decimal, push_str};

verus! {

/// Why a GPU readback cannot become an image.
#[derive(Clone, Copy, Debug, PartialEq, Eq, Structural)]
pub enum ReadbackError {
    /// The bytes of one row do not fit in the address space.
    RowSizeOverflow,
    /// The row pitch is smaller than the bytes of one row.
    RowPitchTooSmall { row_pitch: usize, row_bytes: usize },
    /// The size of the padded buffer does not fit in the address space.
    BufferSizeOverflow,
    /// The buffer holds fewer bytes than its rows need.
    BufferTooShort { required: usize, actual: usize },
    /// The size of the image does not fit in the address space.
    ImageSizeOverflow,
}

impl ReadbackError {
    /// The text that describes the error.
    pub open spec fn message_text(self) -> Seq<char> {
        match self {
            ReadbackError::RowSizeOverflow => "rendered image row size overflow"@,
            ReadbackError::RowPitchTooSmall { row_pitch, row_bytes } => "readback row pitch "@
                + decimal_seq(row_pitch as nat) + " is smaller than "@ + decimal_seq(row_bytes as nat),
            ReadbackError::BufferSizeOverflow => "readback buffer size overflow"@,
            ReadbackError::BufferTooShort { required, actual } =>
                "readback buffer is too short: expected at least "@ + decimal_seq(required as nat)
                + " bytes, got "@ + decimal_seq(actual as nat),
            ReadbackError::ImageSizeOverflow => "rendered image buffer size overflow"@,
        }
    }

    /// Describes the error in words.
    pub fn message(&self) -> (r: String)
        ensures
            r@ == self.message_text(),
    {
        let mut out = String::new();
        match *self {
            ReadbackError::RowSizeOverflow => push_str(&mut out, "rendered image row size overflow"),
            ReadbackError::RowPitchTooSmall { row_pitch, row_bytes } => {
                push_str(&mut out, "readback row pitch ");
                push_decimal(&mut out, row_pitch as u64);
                push_str(&mut out, " is smaller than ");
                push_decimal(&mut out, row_bytes as u64);
            },
            ReadbackError::BufferSizeOverflow => push_str(&mut out, "readback buffer size overflow"),
            ReadbackError::BufferTooShort { required, actual } => {
                push_str(&mut out, "readback buffer is too short: expected at least ");
                push_decimal(&mut out, required as u64);
                push_str(&mut out, " bytes, got ");
                push_decimal(&mut out, actual as u64);
            },
            ReadbackError::ImageSizeOverflow => push_str(&mut out, "rendered image buffer size overflow"),
        }
        proof {
            assert(Seq::<char>::empty() + self.message_text() =~= self.message_text());
        }
        out
    }
}

impl RgbaPixels {
    /// The four bytes of the pixel in column `x` of row `y`.
    pub fn get_pixel(&self, x: u32, y: u32) -> (p: [u8; 4])
        requires
            x < self.width,
            y < self.height,
            self.pixels@.len() == 4 * self.width * self.height,
        ensures
            p@ == self.pixels@.subrange(4 * (y * self.width + x), 4 * (y * self.width + x) + 4),
    {
        let len = self.pixels.len();
        let ghost k: int = y * self.width + x;
        proof {
            assert(y * self.width + x < self.height * self.width) by (nonlinear_arith)
                requires y < self.height, x < self.width;
            assert(4 * self.width * self.height == 4 * (self.height * self.width)) by (nonlinear_arith);
            assert(4 * k + 4 <= self.pixels@.len());
            assert(0 <= y * self.width) by (nonlinear_arith);
        }
        let row: usize = (y as usize) * (self.width as usize);
        let base: usize = 4 * (row + x as usize);
        let p = [self.pixels[base], self.pixels[base + 1], self.pixels[base + 2], self.pixels[base + 3]];
        proof {
            assert(p@ =~= self.pixels@.subrange(base as int, base + 4));
        }
        p
    }
}

/// An image of `width` by `height` pixels with four bytes per pixel, rows
/// top to bottom, without padding.
#[derive(Clone, Debug, PartialEq, Eq)]
pub struct RgbaPixels {
    pub width: u32,
    pub height: u32,
    pub pixels: Vec<u8>,
}

/// The unpadded pixel bytes of a readback: row `y` is the first `row_bytes`
/// bytes at `y * row_pitch`; with `swap`, the first and third byte of each
/// pixel are exchanged.
pub open spec fn readback_pixel(bytes: Seq<u8>, row_pitch: int, row_bytes: int, swap: bool, i: int) -> u8 {
    let y = i / row_bytes;
    let x = i % row_bytes;
    let channel = x % 4;
    let src_x = if swap && channel == 0 {
        x + 2
    } else if swap && channel == 2 {
        x - 2
    } else {
        x
    };
    bytes[row_pitch * y + src_x]
}

/// Whether `pixels` is the image read back from `bytes`.
pub open spec fn is_readback(
    bytes: Seq<u8>,
    width: u32,
    height: u32,
    row_pitch: int,
    swap: bool,
    pixels: Seq<u8>,
) -> bool {
    let row_bytes = 4 * width;
    &&& pixels.len() == row_bytes * height
    &&& forall|i: int|
        0 <= i < pixels.len() ==> #[trigger] pixels[i] == readback_pixel(
            bytes,
            row_pitch,
            row_bytes as int,
            swap,
            i,
        )
}

/// The error of a readback, or `None` when the buffer can be read.
pub open spec fn readback_error(width: u32, height: u32, row_pitch: usize, len: nat) -> Option<ReadbackError> {
    let row_bytes = 4 * width;
    if row_bytes > u32::MAX || row_bytes > usize::MAX {
        Some(ReadbackError::RowSizeOverflow)
    } else if row_pitch < row_bytes {
        Some(ReadbackError::RowPitchTooSmall { row_pitch, row_bytes: row_bytes as usize })
    } else if row_pitch * height > usize::MAX {
        Some(ReadbackError::BufferSizeOverflow)
    } else if len < row_pitch * height {
        Some(ReadbackError::BufferTooShort {
            required: (row_pitch * height) as usize,
            actual: len as usize,
        })
    } else if row_bytes * height > usize::MAX {
        Some(ReadbackError::ImageSizeOverflow)
    } else {
        None
    }
}

/// Reads an image back from GPU rows of `row_pitch` bytes each, dropping
/// the row padding; with `swap_red_blue`, BGRA pixels become RGBA.
pub fn rgba_image_from_gpu_rows(
    width: u32,
    height: u32,
    row_pitch: usize,
    bytes: &[u8],
    swap_red_blue: bool,
) -> (r: Result<RgbaPixels, ReadbackError>)
    ensures
        match readback_error(width, height, row_pitch, bytes@.len()) {
            Some(e) => r == Err::<RgbaPixels, ReadbackError>(e),
            None => r matches Ok(img) && img.width == width && img.height == height && is_readback(
                bytes@,
                width,
                height,
                row_pitch as int,
                swap_red_blue,
                img.pixels@,
            ),
        },
{
    let row_bytes_u32 = match width.checked_mul(4) {
        Some(b) => b,
        None => return Err(ReadbackError::RowSizeOverflow),
    };
    if (row_bytes_u32 as u64) > (usize::MAX as u64) {
        return Err(ReadbackError::RowSizeOverflow);
    }
    let row_bytes = row_bytes_u32 as usize;
    if row_pitch < row_bytes {
        return Err(ReadbackError::RowPitchTooSmall { row_pitch, row_bytes });
    }
    let required_len = match row_pitch.checked_mul(height as usize) {
        Some(n) => n,
        None => return Err(ReadbackError::BufferSizeOverflow),
    };
    if bytes.len() < required_len {
        return Err(ReadbackError::BufferTooShort { required: required_len, actual: bytes.len() });
    }
    let pixel_len = match row_bytes.checked_mul(height as usize) {
        Some(n) => n,
        None => return Err(ReadbackError::ImageSizeOverflow),
    };
    let mut pixels: Vec<u8> = Vec::new();
    let mut y: usize = 0;
    while y < height as usize
        invariant
            row_bytes == 4 * width,
            row_pitch >= row_bytes,
            required_len == row_pitch * height,
            bytes@.len() >= required_len,
            pixel_len == row_bytes * height,
            y <= height,
            pixels@.len() == row_bytes * y,
            forall|i: int|
                0 <= i < pixels@.len() ==> #[trigger] pixels@[i] == readback_pixel(
                    bytes@,
                    row_pitch as int,
                    row_bytes as int,
                    swap_red_blue,
                    i,
                ),
        decreases height - y,
    {
        assert(row_pitch * y + row_pitch <= row_pitch * height) by (nonlinear_arith)
            requires
                y < height,
        ;
        assert(row_bytes * y + row_bytes <= row_bytes * height) by (nonlinear_arith)
            requires
                y < height,
        ;
        let row_start = row_pitch * y;
        let ghost row_begin = pixels@.len() as int;
        let mut x: usize = 0;
        while x < row_bytes
            invariant
                bytes@.len() == bytes.len(),
                row_bytes == 4 * width,
                row_pitch >= row_bytes,
                row_start == row_pitch * y,
                row_start + row_pitch <= bytes@.len(),
                row_bytes * y + row_bytes <= row_bytes * height,
                pixel_len == row_bytes * height,
                y < height,
                x <= row_bytes,
                x % 4 == 0,
                pixels@.len() == row_bytes * y + x,
                forall|i: int|
                    0 <= i < pixels@.len() ==> #[trigger] pixels@[i] == readback_pixel(
                        bytes@,
                        row_pitch as int,
                        row_bytes as int,
                        swap_red_blue,
                        i,
                    ),
            decreases row_bytes - x,
        {
            let p = row_start + x;
            let b0 = bytes[p];
            let b1 = bytes[p + 1];
            let b2 = bytes[p + 2];
            let b3 = bytes[p + 3];
            let ghost base = pixels@.len() as int;
            if swap_red_blue {
                pixels.push(b2);
                pixels.push(b1);
                pixels.push(b0);
                pixels.push(b3);
            } else {
                pixels.push(b0);
                pixels.push(b1);
                pixels.push(b2);
                pixels.push(b3);
            }
            proof {
                assert forall|k: int| 0 <= k < 4 implies #[trigger] pixels@[base + k]
                    == readback_pixel(
                    bytes@,
                    row_pitch as int,
                    row_bytes as int,
                    swap_red_blue,
                    base + k,
                ) by {
                    lemma_pixel_position(row_bytes as int, y as int, x as int, k);
                    let i = base + k;
                    assert(i / (row_bytes as int) == y);
                    assert(i % (row_bytes as int) == x + k);
                    assert((x + k) % 4 == k);
                }
                assert forall|i: int|
                    0 <= i < pixels@.len() implies #[trigger] pixels@[i] == readback_pixel(
                    bytes@,
                    row_pitch as int,
                    row_bytes as int,
                    swap_red_blue,
                    i,
                ) by {
                    if i >= base {
                        assert(pixels@[base + (i - base)] == pixels@[i]);
                    }
                }
            }
            x = x + 4;
        }
        assert(row_bytes * y + row_bytes == row_bytes * (y + 1)) by (nonlinear_arith);
        y = y + 1;
    }
    Ok(RgbaPixels { width, height, pixels })
}

proof fn lemma_pixel_position(row_bytes: int, y: int, x: int, k: int)
    requires
        row_bytes > 0,
        row_bytes % 4 == 0,
        0 <= x,
        x + 4 <= row_bytes,
        x % 4 == 0,
        0 <= k < 4,
        0 <= y,
    ensures
        (row_bytes * y + x + k) / row_bytes == y,
        (row_bytes * y + x + k) % row_bytes == x + k,
        (x + k) % 4 == k,
{
    assert((row_bytes * y + x + k) / row_bytes == y) by (nonlinear_arith)
        requires
            row_bytes > 0,
            0 <= x + k < row_bytes,
            0 <= y,
    ;
    assert((row_bytes * y + x + k) % row_bytes == x + k) by (nonlinear_arith)
        requires
            row_bytes > 0,
            0 <= x + k < row_bytes,
            0 <= y,
    ;
}

/// Reads back a BGRA texture.
pub fn rgba_image_from_bgra_rows(width: u32, height: u32, row_pitch: usize, bytes: &[u8]) -> (r:
    Result<RgbaPixels, ReadbackError>)
    ensures
        match readback_error(width, height, row_pitch, bytes@.len()) {
            Some(e) => r == Err::<RgbaPixels, ReadbackError>(e),
            None => r matches Ok(img) && img.width == width && img.height == height && is_readback(
                bytes@,
                width,
                height,
                row_pitch as int,
                true,
                img.pixels@,
            ),
        },
{
    rgba_image_from_gpu_rows(width, height, row_pitch, bytes, true)
}

/// Reads back an RGBA texture.
pub fn rgba_image_from_rgba_rows(width: u32, height: u32, row_pitch: usize, bytes: &[u8]) -> (r:
    Result<RgbaPixels, ReadbackError>)
    ensures
        match readback_error(width, height, row_pitch, bytes@.len()) {
            Some(e) => r == Err::<RgbaPixels, ReadbackError>(e),
            None => r matches Ok(img) && img.width == width && img.height == height && is_readback(
                bytes@,
                width,
                height,
                row_pitch as int,
                false,
                img.pixels@,
            ),
        },
{
    rgba_image_from_gpu_rows(width, height, row_pitch, bytes, false)
}

/// Decodes an encoded image (`image::load_from_memory`) and converts it to
/// 8-bit RGBA (`to_rgba8`), returning its width, height and pixel bytes, or
/// `None` when it does not decode.
///
/// Which bytes decode, and to what, also depends on the decoding and
/// format-detection hooks registered in the process, so nothing is said of
/// the result but what every outcome shares: an RGBA buffer holds at least
/// four bytes for each of its `width * height` pixels.
#[verifier::external_body]
fn decode_rgba8(data: &[u8]) -> (r: Option<(u32, u32, Vec<u8>)>)
    ensures
        r matches Some(img) ==> img.2@.len() >= 4 * img.0 * img.1,
{
    match image::load_from_memory(data) {
        Ok(img) => {
            let rgba = img.to_rgba8();
            Some((rgba.width(), rgba.height(), rgba.into_raw()))
        },
        Err(_) => None,
    }
}

/// A tray icon pixmap: width and height in pixels and ARGB pixel bytes.
#[derive(Clone, Debug, PartialEq, Eq)]
pub struct TrayPixmap {
    pub width: i32,
    pub height: i32,
    pub data: Vec<u8>,
}

/// The ARGB bytes of RGBA bytes: each whole pixel `[r, g, b, a]` becomes
/// `[a, r, g, b]`; trailing bytes that do not fill a pixel are dropped.
pub open spec fn argb_of(rgba: Seq<u8>) -> Seq<u8> {
    Seq::new(
        4 * (rgba.len() / 4),
        |i: int|
            {
                let p = i / 4;
                let c = i % 4;
                if c == 0 {
                    rgba[4 * p + 3]
                } else {
                    rgba[4 * p + c - 1]
                }
            },
    )
}

/// Reorders RGBA pixel bytes into ARGB.
pub fn rgba_to_argb(rgba: &Vec<u8>) -> (r: Vec<u8>)
    ensures
        r@ == argb_of(rgba@),
{
    let len = rgba.len();
    let n = len / 4;
    let mut out: Vec<u8> = Vec::new();
    let mut p: usize = 0;
    while p < n
        invariant
            len == rgba@.len(),
            n == rgba@.len() / 4,
            p <= n,
            out@.len() == 4 * p,
            forall|i: int| 0 <= i < out@.len() ==> #[trigger] out@[i] == argb_of(rgba@)[i],
        decreases n - p,
    {
        assert(4 * p + 4 <= rgba@.len()) by (nonlinear_arith)
            requires
                p < n,
                n == rgba@.len() / 4,
        ;
        assert(4 * p + 4 <= len);
        let base = 4 * p;
        let ghost before = out@.len() as int;
        out.push(rgba[base + 3]);
        out.push(rgba[base]);
        out.push(rgba[base + 1]);
        out.push(rgba[base + 2]);
        proof {
            assert forall|i: int| 0 <= i < out@.len() implies #[trigger] out@[i] == argb_of(rgba@)[i] by {
                if i >= before {
                    let k = i - before;
                    assert(i / 4 == p as int) by (nonlinear_arith)
                        requires
                            i == 4 * p + k,
                            0 <= k < 4,
                    ;
                    assert(i % 4 == k) by (nonlinear_arith)
                        requires
                            i == 4 * p + k,
                            0 <= k < 4,
                    ;
                    assert(4 * (rgba@.len() / 4) >= 4 * p + 4);
                }
            }
        }
        p = p + 1;
    }
    out
}

/// Whether `r` are the pixmaps of a decode result: none when nothing
/// decoded, else one pixmap of the decoded width and height (as `i32`) with
/// the RGBA bytes reordered into ARGB.
pub open spec fn are_pixmaps_of(r: Seq<TrayPixmap>, decoded: Option<(u32, u32, Seq<u8>)>) -> bool {
    match decoded {
        None => r.len() == 0,
        Some((w, h, rgba)) => r.len() == 1 && r[0].width == w as i32 && r[0].height == h as i32
            && r[0].data@ == argb_of(rgba),
    }
}

/// The pixmaps of a decoded icon image: none when it did not decode, else
/// the image in ARGB.
pub fn pixmaps_from_decoded(decoded: Option<(u32, u32, Vec<u8>)>) -> (r: Vec<TrayPixmap>)
    ensures
        are_pixmaps_of(
            r@,
            match decoded {
                Some((w, h, rgba)) => Some((w, h, rgba@)),
                None => None,
            },
        ),
{
    match decoded {
        Some((width, height, rgba)) => {
            let data = rgba_to_argb(&rgba);
            let mut icons: Vec<TrayPixmap> = Vec::new();
            icons.push(TrayPixmap { width: width as i32, height: height as i32, data });
            icons
        },
        None => Vec::new(),
    }
}

/// The pixmaps of a tray icon: none when there is no icon data; otherwise
/// the pixmaps of whatever decoding the data gave (see
/// [`pixmaps_from_decoded`]): none, or one image in ARGB.
pub fn icon_pixmap(icon_data: &[u8]) -> (r: Vec<TrayPixmap>)
    ensures
        icon_data@.len() == 0 ==> r@.len() == 0,
        r@.len() == 0 || exists|w: u32, h: u32, rgba: Seq<u8>|
            rgba.len() >= 4 * w * h && #[trigger] are_pixmaps_of(r@, Some((w, h, rgba))),
{
    if icon_data.len() == 0 {
        return Vec::new();
    }
    let decoded = decode_rgba8(icon_data);
    let ghost view = match &decoded {
        Some((w, h, rgba)) => Some((*w, *h, rgba@)),
        None => None,
    };
    let r = pixmaps_from_decoded(decoded);
    proof {
        if r@.len() != 0 {
            let (w, h, rgba) = view.unwrap();
            assert(are_pixmaps_of(r@, Some((w, h, rgba))));
        }
    }
    r
}

} // verus!

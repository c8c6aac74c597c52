//! Decoding a raster image into a grid of palette indices.
//!
//! The PNG container is opened by the `png` crate behind a trusted wrapper;
//! everything after that — checking the channel layout, matching each pixel's
//! RGB triple against the palette, filling the grid — is verified.

use vstd::prelude::*;
use crate::palette::{PaletteColor, PaletteTable};

verus! {

/// Why a decode failed.
#[derive(Debug, Clone, Copy, PartialEq, Eq)]
pub enum DecodeError {
    /// The byte buffer is not a well-formed image container.
    MalformedImage,
    /// The image is not 8-bit-per-channel RGBA.
    UnsupportedChannelLayout,
    /// The pixel buffer does not hold exactly four bytes per pixel.
    TruncatedPixelBuffer,
    /// A decoded pixel's RGB triple has no palette entry; carries the first
    /// such pixel.
    PaletteLookup { flat_index: usize, rgb: (u8, u8, u8) },
}

/// A decoded frame as the container reports it: pixel dimensions, the
/// container's numeric color-type and bit-depth codes, and the raw bytes.
pub struct RawFrame {
    pub width: usize,
    pub height: usize,
    pub color_code: u8,
    pub bit_depth: u8,
    pub data: Vec<u8>,
}

/// The color-type code of an RGBA image.
pub const COLOR_CODE_RGBA: u8 = 6;

/// The bit-depth code of an 8-bit-per-channel image.
pub const BIT_DEPTH_EIGHT: u8 = 8;

impl RawFrame {
    /// The frame as a plain tuple, for contracts.
    pub open spec fn model(&self) -> (nat, nat, nat, nat, Seq<u8>) {
        (self.width as nat, self.height as nat, self.color_code as nat, self.bit_depth as nat, self.data@)
    }
}

/// What the first frame of a PNG byte buffer decodes to: dimensions, the
/// color-type and bit-depth codes, and the unpacked bytes — or nothing, when
/// the buffer is not a well-formed PNG. The decoded frame is a function of
/// the bytes alone.
pub uninterp spec fn png_frame_of(bytes: Seq<u8>) -> Option<(nat, nat, nat, nat, Seq<u8>)>;

/// Relies on png's `Decoder::read_info` and `Reader::next_frame`: the first
/// frame decoded from a byte buffer — the dimensions, color-type and
/// bit-depth codes that `OutputInfo` reports, and the unpacked frame bytes,
/// cut to `OutputInfo::buffer_size` — is a function of those bytes alone.
#[verifier::external_body]
fn decode_png_frame(bytes: &[u8]) -> (r: Option<RawFrame>)
    ensures
        match r {
            Some(f) => png_frame_of(bytes@) == Some(f.model()),
            None => png_frame_of(bytes@) is None,
        },
{
    let decoder = png::Decoder::new(std::io::Cursor::new(bytes));
    let mut reader = decoder.read_info().ok()?;
    let mut buf = vec![0u8; reader.output_buffer_size()];
    let info = reader.next_frame(&mut buf).ok()?;
    buf.truncate(info.buffer_size());
    Some(RawFrame {
        width: info.width as usize,
        height: info.height as usize,
        color_code: info.color_type as u8,
        bit_depth: info.bit_depth as u8,
        data: buf,
    })
}

/// The RGB triple of pixel `i` in a four-byte-per-pixel buffer; the fourth
/// byte (alpha) is ignored.
pub open spec fn pixel_rgb(data: Seq<u8>, i: int) -> (u8, u8, u8) {
    (data[4 * i], data[4 * i + 1], data[4 * i + 2])
}

/// Whether some palette entry has exactly this RGB triple.
pub open spec fn rgb_in_palette(colors: Seq<PaletteColor>, rgb: (u8, u8, u8)) -> bool {
    exists|j: int| 0 <= j < colors.len() && (#[trigger] colors[j]).rgb == rgb
}

/// The decoded image: a flat, row-major grid of palette indices with the
/// source image's pixel dimensions.
#[derive(Debug)]
pub struct PixelGrid {
    pub width: usize,
    pub height: usize,
    pub cells: Vec<u8>,
}

impl PixelGrid {
    /// Well-formedness against a palette: one cell per pixel, and every cell
    /// a valid index into the palette.
    pub open spec fn wf(&self, colors: Seq<PaletteColor>) -> bool {
        &&& self.cells@.len() == self.width * self.height
        &&& forall|i: int|
            0 <= i < self.cells@.len() ==> (#[trigger] self.cells@[i]) < colors.len()
    }
}

/// Exactly how decoding a frame against a palette must come out: succeeds
/// with the grid of matched palette indices when the frame is 8-bit RGBA,
/// holds four bytes per pixel, and every pixel's RGB triple is in the
/// palette; otherwise fails with the error naming the first violation.
pub open spec fn decode_outcome(
    w: int,
    h: int,
    color_code: int,
    bit_depth: int,
    data: Seq<u8>,
    colors: Seq<PaletteColor>,
    r: Result<PixelGrid, DecodeError>,
) -> bool {
    match r {
        Ok(grid) => {
            &&& color_code == COLOR_CODE_RGBA && bit_depth == BIT_DEPTH_EIGHT
            &&& data.len() == 4 * w * h
            &&& grid.width == w && grid.height == h
            &&& grid.cells@.len() == w * h
            &&& forall|i: int|
                0 <= i < grid.cells@.len() ==> {
                    &&& (#[trigger] grid.cells@[i]) < colors.len()
                    &&& colors[grid.cells@[i] as int].rgb == pixel_rgb(data, i)
                }
        },
        Err(DecodeError::UnsupportedChannelLayout) => !(color_code == COLOR_CODE_RGBA
            && bit_depth == BIT_DEPTH_EIGHT),
        Err(DecodeError::TruncatedPixelBuffer) => {
            &&& color_code == COLOR_CODE_RGBA && bit_depth == BIT_DEPTH_EIGHT
            &&& data.len() != 4 * w * h
        },
        Err(DecodeError::PaletteLookup { flat_index, rgb }) => {
            &&& color_code == COLOR_CODE_RGBA && bit_depth == BIT_DEPTH_EIGHT
            &&& data.len() == 4 * w * h
            &&& 0 <= flat_index < w * h
            &&& rgb == pixel_rgb(data, flat_index as int)
            &&& !rgb_in_palette(colors, rgb)
            &&& forall|i: int|
                0 <= i < flat_index ==> rgb_in_palette(colors, pixel_rgb(data, i))
        },
        Err(DecodeError::MalformedImage) => false,
    }
}

/// Turns an unpacked frame into a grid of palette indices: the frame must be
/// 8-bit RGBA with four bytes per pixel, and every pixel's RGB triple must
/// match a palette entry exactly; the first pixel that matches none aborts
/// the decode.
pub fn cells_from_frame(frame: &RawFrame, table: &PaletteTable) -> (r: Result<
    PixelGrid,
    DecodeError,
>)
    requires
        table.wf(),
        table.colors_seq().len() <= 256,
    ensures
        decode_outcome(
            frame.width as int,
            frame.height as int,
            frame.color_code as int,
            frame.bit_depth as int,
            frame.data@,
            table.colors_seq(),
            r,
        ),
{
    if !(frame.color_code == COLOR_CODE_RGBA && frame.bit_depth == BIT_DEPTH_EIGHT) {
        return Err(DecodeError::UnsupportedChannelLayout);
    }
    let n = match frame.width.checked_mul(frame.height) {
        Some(n) => n,
        None => {
            proof {
                let w = frame.width as int;
                let h = frame.height as int;
                assert(w * h <= 4 * w * h) by (nonlinear_arith)
                    requires
                        w >= 0,
                        h >= 0,
                ;
                assert(frame.data.len() <= usize::MAX);
            }
            return Err(DecodeError::TruncatedPixelBuffer);
        },
    };
    proof {
        let w = frame.width as int;
        let h = frame.height as int;
        assert(4 * w * h == 4 * (n as int)) by (nonlinear_arith)
            requires
                n == w * h,
        ;
    }
    let expected = match n.checked_mul(4) {
        Some(b) => b,
        None => {
            proof {
                assert(frame.data.len() <= usize::MAX);
            }
            return Err(DecodeError::TruncatedPixelBuffer);
        },
    };
    if frame.data.len() != expected {
        return Err(DecodeError::TruncatedPixelBuffer);
    }
    let mut cells: Vec<u8> = Vec::new();
    for i in 0..n
        invariant
            frame.color_code == COLOR_CODE_RGBA,
            frame.bit_depth == BIT_DEPTH_EIGHT,
            n == frame.width * frame.height,
            frame.data@.len() == 4 * n,
            frame.data@.len() == 4 * (frame.width as int) * (frame.height as int),
            table.wf(),
            table.colors_seq().len() <= 256,
            cells@.len() == i,
            forall|j: int|
                0 <= j < i ==> {
                    &&& (#[trigger] cells@[j]) < table.colors_seq().len()
                    &&& table.colors_seq()[cells@[j] as int].rgb == pixel_rgb(frame.data@, j)
                },
    {
        proof {
            assert(frame.data.len() == 4 * n);
        }
        let base = i * 4;
        let rgb = (frame.data[base], frame.data[base + 1], frame.data[base + 2]);
        match table.index_of(rgb) {
            Some(idx) => {
                cells.push(idx as u8);
            },
            None => {
                proof {
                    assert forall|j: int| 0 <= j < i implies rgb_in_palette(
                        table.colors_seq(),
                        pixel_rgb(frame.data@, j),
                    ) by {
                        assert(table.colors_seq()[cells@[j] as int].rgb == pixel_rgb(
                            frame.data@,
                            j,
                        ));
                    }
                }
                return Err(DecodeError::PaletteLookup { flat_index: i, rgb });
            },
        }
    }
    Ok(PixelGrid { width: frame.width, height: frame.height, cells })
}

/// Decodes raw image bytes into a grid of palette indices: the PNG container
/// is unpacked, then each pixel is matched against the palette. Fails on a
/// malformed container, a layout other than 8-bit RGBA, a short pixel
/// buffer, or a pixel whose color is not in the palette.
pub fn load_image_cells(bytes: &[u8], table: &PaletteTable) -> (r: Result<PixelGrid, DecodeError>)
    requires
        table.wf(),
        table.colors_seq().len() <= 256,
    ensures
        match png_frame_of(bytes@) {
            None => r == Err::<PixelGrid, DecodeError>(DecodeError::MalformedImage),
            Some(m) => decode_outcome(
                m.0 as int,
                m.1 as int,
                m.2 as int,
                m.3 as int,
                m.4,
                table.colors_seq(),
                r,
            ),
        },
{
    match decode_png_frame(bytes) {
        None => Err(DecodeError::MalformedImage),
        Some(frame) => cells_from_frame(&frame, table),
    }
}

/// Law: decoding is total on well-laid-out frames whose every pixel's color
/// is in the palette — it returns a grid of one cell per pixel, each cell a
/// valid palette index.
pub proof fn lemma_decode_totality(
    w: int,
    h: int,
    data: Seq<u8>,
    colors: Seq<PaletteColor>,
    r: Result<PixelGrid, DecodeError>,
)
    requires
        decode_outcome(w, h, COLOR_CODE_RGBA as int, BIT_DEPTH_EIGHT as int, data, colors, r),
        data.len() == 4 * w * h,
        forall|i: int| 0 <= i < w * h ==> rgb_in_palette(colors, pixel_rgb(data, i)),
    ensures
        r is Ok,
        r->Ok_0.cells@.len() == w * h,
        forall|i: int| 0 <= i < w * h ==> (#[trigger] r->Ok_0.cells@[i]) < colors.len(),
{
}

/// Law: a well-laid-out frame with one pixel whose color is not in the
/// palette never decodes to a grid; it fails rather than defaulting that
/// cell.
pub proof fn lemma_decode_rejects_unknown(
    w: int,
    h: int,
    data: Seq<u8>,
    colors: Seq<PaletteColor>,
    r: Result<PixelGrid, DecodeError>,
    bad: int,
)
    requires
        decode_outcome(w, h, COLOR_CODE_RGBA as int, BIT_DEPTH_EIGHT as int, data, colors, r),
        data.len() == 4 * w * h,
        0 <= bad < w * h,
        !rgb_in_palette(colors, pixel_rgb(data, bad)),
    ensures
        r is Err,
{
    if r is Ok {
        let grid = r->Ok_0;
        assert(colors[grid.cells@[bad] as int].rgb == pixel_rgb(data, bad));
    }
}

} // verus!

//! The decode pipeline: raw RGBA pixels to a symbol payload.
//!
//! Step one converts the buffer to single-channel luminance with fixed
//! integer weights; step two hands the grayscale image to the symbol
//! detector and decoder; step three maps its answer to a `DecodeOutcome`.

use vstd::prelude::*;

verus! {

/// Raw captured pixels: 8-bit RGBA, row major, stride `4 * width` bytes.
/// Owned by exactly one stage at a time; consumed by one decode attempt.
#[derive(Debug)]
pub struct PixelBuffer {
    pub data: Vec<u8>,
    pub width: u32,
    pub height: u32,
}

impl PixelBuffer {
    /// Exactly one RGBA quadruple per pixel.
    pub open spec fn wf(self) -> bool {
        self.data@.len() == 4 * self.width * self.height
    }
}

/// The terminal value of one capture-and-decode attempt.
#[derive(Debug)]
pub enum DecodeOutcome {
    /// A symbol was found and decoded to this non-empty payload.
    Payload(String),
    /// No symbol in the selected area, or it did not decode: not an error.
    NotFound,
    /// The screen read failed; the reason is surfaced once.
    CaptureFailed(String),
    /// The buffer itself was unusable (its length does not match its
    /// dimensions).
    DecodeFailed(String),
}

/// The mathematical shape of a `DecodeOutcome`: payloads and reasons as
/// character sequences.
pub enum SpecOutcome {
    Payload(Seq<char>),
    NotFound,
    CaptureFailed(Seq<char>),
    DecodeFailed(Seq<char>),
}

impl View for DecodeOutcome {
    type V = SpecOutcome;

    open spec fn view(&self) -> SpecOutcome {
        match self {
            DecodeOutcome::Payload(s) => SpecOutcome::Payload(s@),
            DecodeOutcome::NotFound => SpecOutcome::NotFound,
            DecodeOutcome::CaptureFailed(m) => SpecOutcome::CaptureFailed(m@),
            DecodeOutcome::DecodeFailed(m) => SpecOutcome::DecodeFailed(m@),
        }
    }
}

/// Luminance of one pixel under the fixed perceptual weights
/// `(2126 r + 7152 g + 722 b) / 10000`.
pub open spec fn spec_luma(r: u8, g: u8, b: u8) -> u8 {
    ((2126 * (r as int) + 7152 * (g as int) + 722 * (b as int)) / 10000) as u8
}

/// The luminance image of `pixels` RGBA quadruples, one byte per pixel.
pub open spec fn spec_grayscale(data: Seq<u8>, pixels: int) -> Seq<u8> {
    Seq::new(pixels as nat, |i: int| spec_luma(data[4 * i], data[4 * i + 1], data[4 * i + 2]))
}

/// Convert an RGBA byte buffer to its luminance image.
pub fn grayscale(data: &Vec<u8>, pixels: usize) -> (gray: Vec<u8>)
    requires
        data@.len() == 4 * pixels,
    ensures
        gray@ == spec_grayscale(data@, pixels as int),
{
    let len: usize = data.len();
    let mut gray: Vec<u8> = Vec::new();
    let mut i: usize = 0;
    while i < pixels
        invariant
            data@.len() == 4 * pixels,
            data@.len() == len,
            i <= pixels,
            gray@.len() == i,
            forall|j: int|
                0 <= j < i ==> gray@[j] == spec_luma(
                    data@[4 * j],
                    data@[4 * j + 1],
                    data@[4 * j + 2],
                ),
        decreases pixels - i,
    {
        let red = data[4 * i];
        let green = data[4 * i + 1];
        let blue = data[4 * i + 2];
        let weighted: u32 = 2126 * (red as u32) + 7152 * (green as u32) + 722 * (blue as u32);
        let level: u32 = weighted / 10000;
        assert(level <= 255);
        gray.push(level as u8);
        i += 1;
    }
    proof {
        assert(gray@ =~= spec_grayscale(data@, pixels as int));
    }
    gray
}

/// What the symbol detector and decoder yield on a grayscale image: the
/// payload of the first grid in the detector's own scan order, if one is
/// found and decodes. A function of the pixels and dimensions alone.
pub uninterp spec fn qr_scan(gray: Seq<u8>, width: int, height: int) -> Option<Seq<char>>;

/// Relies on rqrr: `PreparedImage::prepare_from_greyscale` binarizes the
/// luminance image, `detect_grids` lists candidate grids in the detector's
/// scan order, and `Grid::decode` decodes the first of them. The answer
/// depends on the pixel values and dimensions alone. Both dimensions must
/// be positive: the capstone scan reads the first column of every row, so
/// a zero-width image with rows would be indexed out of bounds.
#[verifier::external_body]
fn scan_grayscale(gray: &Vec<u8>, width: usize, height: usize) -> (r: Option<String>)
    requires
        gray@.len() == width * height,
        width > 0,
        height > 0,
    ensures
        r.deep_view() == qr_scan(gray@, width as int, height as int),
{
    let mut prepared =
        rqrr::PreparedImage::prepare_from_greyscale(width, height, |x, y| gray[y * width + x]);
    let grids = prepared.detect_grids();
    match grids.first() {
        Some(grid) => match grid.decode() {
            Ok((_meta, content)) => Some(content),
            Err(_) => None,
        },
        None => None,
    }
}

/// What `decode` returns for a buffer with the given contents and
/// dimensions: a malformed buffer fails, a zero-area buffer holds no
/// symbol, an empty or absent payload is `NotFound`, and a non-empty
/// payload is surfaced.
pub open spec fn spec_decode(data: Seq<u8>, width: int, height: int) -> SpecOutcome {
    if data.len() != 4 * width * height {
        SpecOutcome::DecodeFailed("malformed buffer"@)
    } else if width <= 0 || height <= 0 {
        SpecOutcome::NotFound
    } else {
        match qr_scan(spec_grayscale(data, width * height), width, height) {
            Some(payload) => if payload.len() > 0 {
                SpecOutcome::Payload(payload)
            } else {
                SpecOutcome::NotFound
            },
            None => SpecOutcome::NotFound,
        }
    }
}

/// Decode one pixel buffer, consuming it. A buffer whose length does not
/// match its dimensions yields `DecodeFailed`; a zero-area buffer holds no
/// symbol and yields `NotFound` without reaching the detector.
pub fn decode(buffer: PixelBuffer) -> (outcome: DecodeOutcome)
    ensures
        outcome@ == spec_decode(buffer.data@, buffer.width as int, buffer.height as int),
{
    proof {
        let w = buffer.width as int;
        let h = buffer.height as int;
        assert(w * h <= 0xFFFF_FFFF * 0xFFFF_FFFF && 0 <= w * h && 4 * w * h == 4 * (w * h))
            by (nonlinear_arith)
            requires
                0 <= w <= 0xFFFF_FFFF,
                0 <= h <= 0xFFFF_FFFF,
        ;
    }
    let expected: u128 = 4u128 * (buffer.width as u128) * (buffer.height as u128);
    if (buffer.data.len() as u128) != expected {
        return DecodeOutcome::DecodeFailed("malformed buffer".to_owned());
    }
    if buffer.width == 0 || buffer.height == 0 {
        return DecodeOutcome::NotFound;
    }
    let pixels: usize = buffer.data.len() / 4;
    proof {
        let w = buffer.width as int;
        let h = buffer.height as int;
        let n = buffer.data@.len() as int;
        assert(n / 4 == w * h) by (nonlinear_arith)
            requires
                n == 4 * (w * h),
        ;
    }
    assert(pixels == (buffer.width as int) * (buffer.height as int));
    let gray = grayscale(&buffer.data, pixels);
    let width: usize = buffer.width as usize;
    let height: usize = buffer.height as usize;
    match scan_grayscale(&gray, width, height) {
        Some(content) => {
            if content.as_str().is_empty() {
                DecodeOutcome::NotFound
            } else {
                DecodeOutcome::Payload(content)
            }
        },
        None => DecodeOutcome::NotFound,
    }
}

/// Law: the decode pipeline is a function of the buffer alone, so decoding
/// the same pixel buffer twice yields the same outcome.
pub proof fn lemma_decode_deterministic(a: PixelBuffer, b: PixelBuffer)
    requires
        a.data@ == b.data@,
        a.width == b.width,
        a.height == b.height,
    ensures
        spec_decode(a.data@, a.width as int, a.height as int) == spec_decode(
            b.data@,
            b.width as int,
            b.height as int,
        ),
{
}

/// Law: a buffer whose byte length does not equal width x height x channel
/// count decodes to `DecodeFailed`, whatever its contents.
pub proof fn lemma_malformed_buffer_fails(data: Seq<u8>, width: int, height: int)
    requires
        data.len() != 4 * width * height,
    ensures
        spec_decode(data, width, height) is DecodeFailed,
{
}

/// Law: a buffer whose byte length matches its dimensions never decodes to
/// an error: whatever the detector answers, the outcome is a payload or
/// `NotFound`.
pub proof fn lemma_well_formed_buffer_never_errors(data: Seq<u8>, width: int, height: int)
    requires
        data.len() == 4 * width * height,
    ensures
        !(spec_decode(data, width, height) is DecodeFailed),
        !(spec_decode(data, width, height) is CaptureFailed),
{
}

} // verus!

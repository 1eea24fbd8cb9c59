//! The layout of the format, as a specification over bytes, and the decoder
//! that is proved to follow it.

use vstd::prelude::*;

use crate::image::{palette_view, rows_view, triples_view, DecodeError, Image, ImageView};

verus! {

/// Bytes in the fixed header: signature, version, width and height.
pub const HEADER_LEN: usize = 7;

/// The only version of the layout this decoder reads.
pub const VERSION: u8 = 0x01;

/// Whether `b` starts with the signature `43 52 42 50` ("CRBP").
pub open spec fn has_signature(b: Seq<u8>) -> bool {
    &&& b.len() >= 4
    &&& b[0] == 0x43
    &&& b[1] == 0x52
    &&& b[2] == 0x42
    &&& b[3] == 0x50
}

/// `height` rows of `width` bytes each, read row-major from `start` in `b`.
pub open spec fn pixel_rows(b: Seq<u8>, start: int, width: int, height: int) -> Seq<Seq<u8>> {
    Seq::new(height as nat, |r: int| b.subrange(start + r * width, start + r * width + width))
}

/// `count` RGB triples read one after another from `start` in `b`.
pub open spec fn palette_triples(b: Seq<u8>, start: int, count: int) -> Seq<Seq<u8>> {
    Seq::new(count as nat, |i: int| b.subrange(start + 3 * i, start + 3 * i + 3))
}

/// What decoding `b` gives: the first violated rule of the layout, in the
/// order the fields appear, or the image it describes.
///
/// After the header, the last `width * height` bytes are the pixel grid and
/// the bytes before them form the colour-spec region. An empty region means
/// no palette; otherwise its first byte is the palette count and the
/// `3 * count` bytes after it are the palette. Bytes of the region past the
/// palette are not read.
pub open spec fn decode_spec(b: Seq<u8>) -> Result<ImageView, DecodeError> {
    if !has_signature(b) {
        Err(DecodeError::InvalidSignature)
    } else if b.len() < 5 || b[4] != VERSION {
        Err(DecodeError::UnsupportedVersion)
    } else if b.len() < 6 {
        Err(DecodeError::TruncatedHeader)
    } else if b[5] == 0 {
        Err(DecodeError::InvalidWidth)
    } else if b.len() < 7 {
        Err(DecodeError::TruncatedHeader)
    } else if b[6] == 0 {
        Err(DecodeError::InvalidHeight)
    } else {
        let width = b[5];
        let height = b[6];
        let n = width as int * height as int;
        if b.len() - HEADER_LEN < n {
            Err(DecodeError::TruncatedPixelData)
        } else {
            let pixel_start = b.len() - n;
            let pixels = pixel_rows(b, pixel_start, width as int, height as int);
            if pixel_start == HEADER_LEN {
                Ok(ImageView { width, height, palette_size: None, palette: None, pixels })
            } else if b[7] == 0 {
                Err(DecodeError::InvalidPaletteCount)
            } else if pixel_start - 8 < 3 * b[7] {
                Err(DecodeError::TruncatedPalette)
            } else {
                Ok(
                    ImageView {
                        width,
                        height,
                        palette_size: Some(b[7]),
                        palette: Some(palette_triples(b, 8, b[7] as int)),
                        pixels,
                    },
                )
            }
        }
    }
}

/// Every image that decoding yields has the decoded shape: `height` rows of
/// `width` bytes, positive dimensions, and a palette of exactly the declared
/// number of triples when there is one.
pub proof fn lemma_decoded_well_formed(b: Seq<u8>)
    requires
        decode_spec(b) is Ok,
    ensures
        decode_spec(b)->Ok_0.well_formed(),
{
    let img = decode_spec(b)->Ok_0;
    let width = b[5] as int;
    let height = b[6] as int;
    assert forall|r: int| 0 <= r < img.pixels.len() implies #[trigger] img.pixels[r].len() == width by {
        lemma_row_in_grid(r, width, height);
    }
}

/// The view of a decode result.
pub open spec fn result_view(r: Result<Image, DecodeError>) -> Result<ImageView, DecodeError> {
    match r {
        Ok(img) => Ok(img@),
        Err(e) => Err(e),
    }
}

/// Reads the byte at `at` as a count that must be positive: `missing` if the
/// buffer ends before it, `zero` if it is zero.
fn read_nonzero(
    bytes: &[u8],
    at: usize,
    missing: DecodeError,
    zero: DecodeError,
) -> (r: Result<u8, DecodeError>)
    ensures
        r == (if at >= bytes@.len() {
            Err(missing)
        } else if bytes@[at as int] == 0 {
            Err(zero)
        } else {
            Ok(bytes@[at as int])
        }),
{
    if at >= bytes.len() {
        Err(missing)
    } else if bytes[at] == 0 {
        Err(zero)
    } else {
        Ok(bytes[at])
    }
}

/// Copies `bytes[from..to]` into a new vector.
fn copy_range(bytes: &[u8], from: usize, to: usize) -> (r: Vec<u8>)
    requires
        from <= to <= bytes@.len(),
    ensures
        r@ == bytes@.subrange(from as int, to as int),
{
    let mut out: Vec<u8> = Vec::with_capacity(to - from);
    let mut i: usize = from;
    while i < to
        invariant
            from <= i <= to <= bytes@.len(),
            out@ == bytes@.subrange(from as int, i as int),
        decreases to - i,
    {
        out.push(bytes[i]);
        i += 1;
        assert(out@ =~= bytes@.subrange(from as int, i as int));
    }
    out
}

/// Reads `count` RGB triples starting at `start`.
fn read_palette(bytes: &[u8], start: usize, count: u8) -> (r: Vec<[u8; 3]>)
    requires
        start + 3 * count <= bytes@.len(),
    ensures
        triples_view(r@) == palette_triples(bytes@, start as int, count as int),
{
    let len = bytes.len();
    let mut table: Vec<[u8; 3]> = Vec::with_capacity(count as usize);
    let mut i: u8 = 0;
    while i < count
        invariant
            i <= count,
            start + 3 * count <= bytes@.len() == len,
            table@.len() == i,
            forall|k: int|
                0 <= k < i ==> #[trigger] table@[k]@ == bytes@.subrange(
                    start + 3 * k,
                    start + 3 * k + 3,
                ),
        decreases count - i,
    {
        let at: usize = start + 3 * (i as usize);
        let triple: [u8; 3] = [bytes[at], bytes[at + 1], bytes[at + 2]];
        assert(triple@ =~= bytes@.subrange(at as int, at + 3));
        table.push(triple);
        i += 1;
    }
    assert(triples_view(table@) =~= palette_triples(bytes@, start as int, count as int));
    table
}

/// Row `r` of a grid of `height` rows of `width` bytes lies inside the grid.
proof fn lemma_row_in_grid(r: int, width: int, height: int)
    requires
        0 <= r < height,
        0 <= width,
    ensures
        0 <= r * width,
        r * width + width <= width * height,
{
    assert(0 <= r * width) by (nonlinear_arith)
        requires
            0 <= r,
            0 <= width,
    ;
    assert(r * width + width <= width * height) by (nonlinear_arith)
        requires
            r < height,
            0 <= width,
    ;
}

/// Splits the `width * height` bytes from `start` into rows of `width`.
fn read_rows(bytes: &[u8], start: usize, width: u8, height: u8) -> (r: Vec<Vec<u8>>)
    requires
        start + width * height <= bytes@.len(),
    ensures
        rows_view(r@) == pixel_rows(bytes@, start as int, width as int, height as int),
{
    let len = bytes.len();
    let mut rows: Vec<Vec<u8>> = Vec::with_capacity(height as usize);
    let mut line: u8 = 0;
    while line < height
        invariant
            line <= height,
            start + width * height <= bytes@.len() == len,
            rows@.len() == line,
            forall|k: int|
                0 <= k < line ==> #[trigger] rows@[k]@ == bytes@.subrange(
                    start + k * width,
                    start + k * width + width,
                ),
        decreases height - line,
    {
        proof {
            lemma_row_in_grid(line as int, width as int, height as int);
        }
        let from: usize = start + (line as usize) * (width as usize);
        let row = copy_range(bytes, from, from + width as usize);
        rows.push(row);
        line += 1;
    }
    assert(rows_view(rows@) =~= pixel_rows(bytes@, start as int, width as int, height as int));
    rows
}

/// Decodes an image from `bytes`, or reports the first rule of the layout
/// that the buffer breaks.
pub fn decode(bytes: &[u8]) -> (r: Result<Image, DecodeError>)
    ensures
        result_view(r) == decode_spec(bytes@),
        r is Ok ==> r->Ok_0@.well_formed(),
{
    let len = bytes.len();
    if len < 4 || bytes[0] != 0x43 || bytes[1] != 0x52 || bytes[2] != 0x42 || bytes[3] != 0x50 {
        return Err(DecodeError::InvalidSignature);
    }
    if len < 5 || bytes[4] != VERSION {
        return Err(DecodeError::UnsupportedVersion);
    }
    let width = match read_nonzero(bytes, 5, DecodeError::TruncatedHeader, DecodeError::InvalidWidth) {
        Ok(w) => w,
        Err(e) => return Err(e),
    };
    let height = match read_nonzero(bytes, 6, DecodeError::TruncatedHeader, DecodeError::InvalidHeight) {
        Ok(h) => h,
        Err(e) => return Err(e),
    };
    assert(width as int * height as int <= 255 * 255) by (nonlinear_arith)
        requires
            width <= 255,
            height <= 255,
    ;
    let pixel_count: usize = (width as usize) * (height as usize);
    if len - HEADER_LEN < pixel_count {
        return Err(DecodeError::TruncatedPixelData);
    }
    let pixel_start: usize = len - pixel_count;
    let (palette_size, palette) = if pixel_start == HEADER_LEN {
        (None, None)
    } else {
        let count = match read_nonzero(bytes, 7, DecodeError::TruncatedPalette, DecodeError::InvalidPaletteCount) {
            Ok(c) => c,
            Err(e) => return Err(e),
        };
        if pixel_start - 8 < 3 * (count as usize) {
            return Err(DecodeError::TruncatedPalette);
        }
        (Some(count), Some(read_palette(bytes, 8, count)))
    };
    let pixels = read_rows(bytes, pixel_start, width, height);
    let ghost view = ImageView {
        width,
        height,
        palette_size,
        palette: palette_view(&palette),
        pixels: rows_view(pixels@),
    };
    proof {
        lemma_decoded_well_formed(bytes@);
    }
    Ok(Image::from_parts(width, height, palette_size, palette, pixels))
}

/// Whether `b` has the signature, the supported version, and positive width
/// and height bytes.
pub open spec fn valid_header(b: Seq<u8>) -> bool {
    &&& has_signature(b)
    &&& b.len() >= HEADER_LEN
    &&& b[4] == VERSION
    &&& b[5] != 0
    &&& b[6] != 0
}

/// The errors that come from the fixed header.
pub open spec fn is_header_error(e: DecodeError) -> bool {
    match e {
        DecodeError::InvalidSignature
        | DecodeError::UnsupportedVersion
        | DecodeError::TruncatedHeader
        | DecodeError::InvalidWidth
        | DecodeError::InvalidHeight => true,
        _ => false,
    }
}

/// Decoding is a function of the bytes alone: two decodes of the same bytes
/// give the same image, or the same error.
pub proof fn lemma_decode_deterministic(
    bytes: Seq<u8>,
    first: Result<Image, DecodeError>,
    second: Result<Image, DecodeError>,
)
    requires
        result_view(first) == decode_spec(bytes),
        result_view(second) == decode_spec(bytes),
    ensures
        result_view(first) == result_view(second),
        first is Ok <==> second is Ok,
        first is Ok ==> first->Ok_0@ == second->Ok_0@,
{
}

/// A buffer shorter than the header never decodes: it fails with an error
/// of the header.
pub proof fn lemma_short_buffer_fails(b: Seq<u8>)
    requires
        b.len() < HEADER_LEN,
    ensures
        decode_spec(b) is Err,
        is_header_error(decode_spec(b)->Err_0),
{
}

/// A valid header followed by exactly `width * height` bytes decodes to an
/// image without a palette whose rows are those bytes.
pub proof fn lemma_no_palette(b: Seq<u8>)
    requires
        valid_header(b),
        b.len() == HEADER_LEN + b[5] * b[6],
    ensures
        decode_spec(b) is Ok,
        decode_spec(b)->Ok_0.palette_size is None,
        decode_spec(b)->Ok_0.palette is None,
        decode_spec(b)->Ok_0.pixels == pixel_rows(b, HEADER_LEN as int, b[5] as int, b[6] as int),
{
}

/// A non-empty colour-spec region whose count byte `c` is positive but which
/// holds fewer than `3 * c` bytes after it fails with `TruncatedPalette`.
pub proof fn lemma_short_palette_fails(b: Seq<u8>)
    requires
        valid_header(b),
        b.len() > HEADER_LEN + b[5] * b[6],
        b[7] != 0,
        b.len() - HEADER_LEN - b[5] * b[6] - 1 < 3 * b[7],
    ensures
        decode_spec(b) == Err::<ImageView, DecodeError>(DecodeError::TruncatedPalette),
{
}

} // verus!

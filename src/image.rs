//! The decoded image, its mathematical view, and the ways decoding fails.

use vstd::prelude::*;

verus! {

/// Why a buffer could not be decoded.
#[derive(Debug, Clone, Copy, PartialEq, Eq, Structural)]
pub enum DecodeError {
    /// The first four bytes are missing or are not the signature.
    InvalidSignature,
    /// The version byte is missing or is not supported.
    UnsupportedVersion,
    /// The buffer ends before the width or the height byte.
    TruncatedHeader,
    /// The width byte is zero.
    InvalidWidth,
    /// The height byte is zero.
    InvalidHeight,
    /// Fewer bytes follow the header than the pixel grid needs.
    TruncatedPixelData,
    /// The colour-spec region is present and its count byte is zero.
    InvalidPaletteCount,
    /// The colour-spec region is too short for the declared palette.
    TruncatedPalette,
}

/// The mathematical content of an [`Image`]: each palette entry and each
/// row as a sequence of bytes.
pub struct ImageView {
    pub width: u8,
    pub height: u8,
    pub palette_size: Option<u8>,
    pub palette: Option<Seq<Seq<u8>>>,
    pub pixels: Seq<Seq<u8>>,
}

impl ImageView {
    /// The shape every decoded image has: positive dimensions, `height` rows
    /// of `width` bytes, and a palette of exactly `palette_size` triples.
    pub open spec fn well_formed(self) -> bool {
        &&& self.width > 0
        &&& self.height > 0
        &&& self.pixels.len() == self.height as int
        &&& forall|r: int| 0 <= r < self.pixels.len() ==> #[trigger] self.pixels[r].len() == self.width as int
        &&& self.palette_size is Some <==> self.palette is Some
        &&& self.palette_size is Some ==> self.palette_size->0 > 0
        &&& self.palette is Some ==> self.palette->0.len() == self.palette_size->0 as int
        &&& self.palette is Some ==> forall|i: int| 0 <= i < self.palette->0.len() ==> #[trigger] self.palette->0[i].len() == 3
    }
}

/// A decoded image. It owns its palette and pixel rows and cannot be changed
/// once built.
#[derive(Debug, PartialEq, Eq)]
pub struct Image {
    width: u8,
    height: u8,
    palette_size: Option<u8>,
    palette: Option<Vec<[u8; 3]>>,
    pixels: Vec<Vec<u8>>,
}

/// The bytes of each entry of a palette.
pub open spec fn triples_view(p: Seq<[u8; 3]>) -> Seq<Seq<u8>> {
    p.map_values(|t: [u8; 3]| t@)
}

/// The bytes of each row of a pixel grid.
pub open spec fn rows_view(p: Seq<Vec<u8>>) -> Seq<Seq<u8>> {
    p.map_values(|row: Vec<u8>| row@)
}

/// The bytes of each entry of a palette, if there is one.
pub open spec fn palette_view(p: &Option<Vec<[u8; 3]>>) -> Option<Seq<Seq<u8>>> {
    match p {
        Some(t) => Some(triples_view(t@)),
        None => None,
    }
}

impl View for Image {
    type V = ImageView;

    closed spec fn view(&self) -> ImageView {
        ImageView {
            width: self.width,
            height: self.height,
            palette_size: self.palette_size,
            palette: palette_view(&self.palette),
            pixels: rows_view(self.pixels@),
        }
    }
}

impl Image {
    #[verifier::type_invariant]
    spec fn inv(&self) -> bool {
        self@.well_formed()
    }

    /// Builds an image from parts that already have the decoded shape.
    pub(crate) fn from_parts(
        width: u8,
        height: u8,
        palette_size: Option<u8>,
        palette: Option<Vec<[u8; 3]>>,
        pixels: Vec<Vec<u8>>,
    ) -> (r: Image)
        requires
            (ImageView {
                width,
                height,
                palette_size,
                palette: palette_view(&palette),
                pixels: rows_view(pixels@),
            }).well_formed(),
        ensures
            r@ == (ImageView {
                width,
                height,
                palette_size,
                palette: palette_view(&palette),
                pixels: rows_view(pixels@),
            }),
    {
        Image { width, height, palette_size, palette, pixels }
    }

    /// Pixels per row.
    pub fn width(&self) -> (r: u8)
        ensures
            r == self@.width,
            r > 0,
    {
        proof {
            use_type_invariant(self);
        }
        self.width
    }

    /// Number of rows.
    pub fn height(&self) -> (r: u8)
        ensures
            r == self@.height,
            r > 0,
    {
        proof {
            use_type_invariant(self);
        }
        self.height
    }

    /// The declared number of palette entries, or `None` without a palette.
    pub fn palette_size(&self) -> (r: Option<u8>)
        ensures
            r == self@.palette_size,
    {
        self.palette_size
    }

    /// The palette's RGB triples, or `None` when pixel bytes are direct
    /// values.
    pub fn palette(&self) -> (r: &Option<Vec<[u8; 3]>>)
        ensures
            palette_view(r) == self@.palette,
    {
        &self.palette
    }

    /// The rows of the pixel grid, top row first.
    pub fn pixels(&self) -> (r: &Vec<Vec<u8>>)
        ensures
            rows_view(r@) == self@.pixels,
            self@.well_formed(),
    {
        proof {
            use_type_invariant(self);
        }
        &self.pixels
    }
}

} // verus!

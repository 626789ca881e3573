//! Decoded images: RGBA8 texels in rows, ready for upload.

use vstd::prelude::*;
use vstd::arithmetic::div_mod::{
    lemma_fundamental_div_mod, lemma_fundamental_div_mod_converse, lemma_mod_bound,
};
use vstd::arithmetic::mul::lemma_mul_inequality;

verus! {

/// Number of bytes in one RGBA8 texel.
pub const TEXEL_SIZE: usize = 4;

/// `pixels`, read as `rows` rows of `row_len` bytes, with the order of the
/// rows reversed and every row left as it is.
pub open spec fn flip_rows(pixels: Seq<u8>, row_len: int, rows: int) -> Seq<u8> {
    Seq::new(pixels.len(), |i: int| pixels[(rows - 1 - i / row_len) * row_len + i % row_len])
}

/// Byte `column` of row `row` of the flipped image is byte `column` of row
/// `rows - 1 - row` of the image.
pub proof fn lemma_flip_rows_index(
    pixels: Seq<u8>,
    row_len: int,
    rows: int,
    row: int,
    column: int,
)
    requires
        pixels.len() == rows * row_len,
        0 <= row < rows,
        0 <= column < row_len,
    ensures
        0 <= row * row_len + column < pixels.len(),
        0 <= (rows - 1 - row) * row_len + column < pixels.len(),
        flip_rows(pixels, row_len, rows)[row * row_len + column] == pixels[(rows - 1 - row)
            * row_len + column],
{
    lemma_row_position(row_len, rows, row, column);
    lemma_row_position(row_len, rows, rows - 1 - row, column);
}

/// Flipping twice gives the image back.
pub proof fn lemma_flip_rows_twice(pixels: Seq<u8>, row_len: int, rows: int)
    requires
        0 <= rows,
        0 <= row_len,
        pixels.len() == rows * row_len,
    ensures
        flip_rows(flip_rows(pixels, row_len, rows), row_len, rows) == pixels,
{
    let once = flip_rows(pixels, row_len, rows);
    let twice = flip_rows(once, row_len, rows);
    assert forall|i: int| 0 <= i < pixels.len() implies twice[i] == pixels[i] by {
        if row_len == 0 {
            assert(rows * row_len == 0) by (nonlinear_arith)
                requires
                    row_len == 0,
            ;
        }
        let row = i / row_len;
        let column = i % row_len;
        lemma_fundamental_div_mod(i, row_len);
        lemma_mod_bound(i, row_len);
        assert(0 <= row < rows) by (nonlinear_arith)
            requires
                0 <= i < rows * row_len,
                i == row_len * row + column,
                0 <= column < row_len,
        ;
        let mirrored = (rows - 1 - row) * row_len + column;
        lemma_row_position(row_len, rows, rows - 1 - row, column);
        assert(twice[i] == once[mirrored]);
        assert(once[mirrored] == pixels[(rows - 1 - (rows - 1 - row)) * row_len + column]);
        assert(row * row_len + column == i) by (nonlinear_arith)
            requires
                i == row_len * row + column,
        ;
    }
    assert(twice =~= pixels);
}

/// Where byte `column` of row `row` stands, and that the position leads back
/// to the row and the column.
proof fn lemma_row_position(row_len: int, rows: int, row: int, column: int)
    requires
        0 <= row < rows,
        0 <= column < row_len,
    ensures
        0 <= row * row_len + column < rows * row_len,
        (row * row_len + column) / row_len == row,
        (row * row_len + column) % row_len == column,
{
    lemma_fundamental_div_mod_converse(row * row_len + column, row_len, row, column);
    assert(0 <= row * row_len) by (nonlinear_arith)
        requires
            0 <= row,
            0 <= row_len,
    ;
    lemma_mul_inequality(row + 1, rows, row_len);
    assert((row + 1) * row_len == row * row_len + row_len) by (nonlinear_arith);
}

/// A decoded image: `width` x `height` RGBA8 texels, row after row.
///
/// The sides fit the signed 32-bit integers in which the device takes them,
/// and there are exactly four bytes per texel.
#[derive(Debug)]
pub struct Bitmap {
    width: u32,
    height: u32,
    pixels: Vec<u8>,
}

impl Bitmap {
    #[verifier::type_invariant]
    spec fn well_formed(self) -> bool {
        Self::consistent(self.width, self.height, self.pixels@)
    }

    /// Whether `pixels` can be the texels of a `width` x `height` image.
    pub open spec fn consistent(width: u32, height: u32, pixels: Seq<u8>) -> bool {
        &&& width <= i32::MAX
        &&& height <= i32::MAX
        &&& pixels.len() == TEXEL_SIZE * width * height
    }

    /// Number of texels in a row.
    pub closed spec fn spec_width(&self) -> u32 {
        self.width
    }

    /// Number of rows.
    pub closed spec fn spec_height(&self) -> u32 {
        self.height
    }

    /// The texels, row after row, four bytes each.
    pub closed spec fn spec_pixels(&self) -> Seq<u8> {
        self.pixels@
    }

    /// Number of bytes in a row.
    pub open spec fn row_len(&self) -> int {
        TEXEL_SIZE * self.spec_width()
    }

    /// Wraps decoded texels, or refuses them if their number does not match
    /// the sides or a side is too long for the device.
    pub fn new(width: u32, height: u32, pixels: Vec<u8>) -> (bitmap: Option<Bitmap>)
        ensures
            bitmap is Some <==> Self::consistent(width, height, pixels@),
            bitmap matches Some(b) ==> {
                &&& b.spec_width() == width
                &&& b.spec_height() == height
                &&& b.spec_pixels() == pixels@
            },
    {
        if width > 0x7fff_ffff || height > 0x7fff_ffff {
            return None;
        }
        assert(TEXEL_SIZE * width * height <= 4 * 0x7fff_ffff * 0x7fff_ffff) by (nonlinear_arith)
            requires
                width <= 0x7fff_ffff,
                height <= 0x7fff_ffff,
        ;
        let expected: u64 = 4 * (width as u64) * (height as u64);
        if pixels.len() as u64 != expected {
            return None;
        }
        Some(Bitmap { width, height, pixels })
    }

    /// Number of texels in a row.
    pub fn width(&self) -> (width: u32)
        ensures
            width == self.spec_width(),
            width <= i32::MAX,
    {
        proof {
            use_type_invariant(self);
        }
        self.width
    }

    /// Number of rows.
    pub fn height(&self) -> (height: u32)
        ensures
            height == self.spec_height(),
            height <= i32::MAX,
    {
        proof {
            use_type_invariant(self);
        }
        self.height
    }

    /// The texels, row after row.
    pub fn pixels(&self) -> (pixels: &Vec<u8>)
        ensures
            pixels@ == self.spec_pixels(),
            Self::consistent(self.spec_width(), self.spec_height(), pixels@),
    {
        proof {
            use_type_invariant(self);
        }
        &self.pixels
    }

    /// The image upside down: the rows in reverse order.
    pub fn flipv(self) -> (flipped: Bitmap)
        ensures
            flipped.spec_width() == self.spec_width(),
            flipped.spec_height() == self.spec_height(),
            flipped.spec_pixels() == flip_rows(
                self.spec_pixels(),
                self.row_len(),
                self.spec_height() as int,
            ),
    {
        proof {
            use_type_invariant(&self);
        }
        let Bitmap { width, height, pixels } = self;
        if height == 0 {
            // An image without rows has no texels, and is its own flip.
            assert(pixels@.len() == 0) by (nonlinear_arith)
                requires
                    pixels@.len() == TEXEL_SIZE * width * height,
                    height == 0,
            ;
            assert(pixels@ =~= flip_rows(pixels@, TEXEL_SIZE * width, height as int));
            return Bitmap { width, height, pixels };
        }
        let pixels = flip_vertical(width, height, pixels);
        Bitmap { width, height, pixels }
    }

    /// Gives the texels up.
    pub fn into_pixels(self) -> (pixels: Vec<u8>)
        ensures
            pixels@ == self.spec_pixels(),
            Self::consistent(self.spec_width(), self.spec_height(), pixels@),
    {
        proof {
            use_type_invariant(&self);
        }
        self.pixels
    }
}

/// Calls `image::imageops::flip_vertical` on the RGBA8 image that
/// `image::RgbaImage::from_raw` makes of the arguments.
///
/// Not proved: that the result has the texels of the argument with the order
/// of the rows reversed, which is what the function's loop does (texel
/// `(x, y)` goes to `(x, height - 1 - y)` of a new image of the same sides).
///
/// Both `from_raw` and the allocation of the new image compute the byte size
/// as four times the width, then times the height, and fail if either product
/// does not fit a `usize`. With at least one row, the buffer's own length is
/// that size, so both products fit and neither call fails. An image without
/// rows is left out: its width alone could be too much.
#[verifier::external_body]
fn flip_vertical(width: u32, height: u32, pixels: Vec<u8>) -> (flipped: Vec<u8>)
    requires
        height > 0,
        pixels@.len() == TEXEL_SIZE * width * height,
    ensures
        flipped@ == flip_rows(pixels@, TEXEL_SIZE * width, height as int),
{
    let source = image::RgbaImage::from_raw(width, height, pixels).unwrap();
    image::imageops::flip_vertical(&source).into_raw()
}

} // verus!

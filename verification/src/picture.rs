//! Gray pictures: a frame of a video as the `image` crate holds it, shrunk
//! to the size of the terminal and cut down to black and white.

use vstd::prelude::*;
use crate::text::push_char;

verus! {

/// Brightness from which a pixel counts as light.
pub const LIGHT_FROM: u8 = 128;

/// A picture of gray pixels, one byte each, held in an `image::GrayImage`.
/// What it holds is known through `picture_pixels` and `picture_size`, and
/// through what the functions below say of the methods of `GrayImage`.
#[verifier::external_body]
pub struct GrayPicture {
    inner: image::GrayImage,
}

/// The pixels of a picture, row after row from the top, each row from the
/// left: the pixel of column `x` and row `y` has index `y * width + x`.
pub uninterp spec fn picture_pixels(picture: GrayPicture) -> Seq<u8>;

/// Width and height of a picture, in this order.
pub uninterp spec fn picture_size(picture: GrayPicture) -> (u32, u32);

/// The pixels that `image::imageops::resize` with the filter `Nearest`
/// makes of a picture with the given pixels, width and height when it is
/// asked for the new width and height.
pub uninterp spec fn nearest_resized(
    pixels: Seq<u8>,
    width: u32,
    height: u32,
    new_width: u32,
    new_height: u32,
) -> Seq<u8>;

/// Whether a buffer of `width * height` elements of `bytes_each` bytes can
/// be asked of the allocator at all.
pub open spec fn buffer_fits(width: u32, height: u32, bytes_each: nat) -> bool {
    width * height * bytes_each <= isize::MAX
}

/// Whether a picture of the given size can be resized to the new size
/// without asking for a buffer that cannot exist. Besides the result, a
/// resize that has something to sample and changes the size builds a picture
/// of the old width and the new height with four floats for each pixel.
pub open spec fn resize_fits(size: (u32, u32), new_width: u32, new_height: u32) -> bool {
    &&& buffer_fits(new_width, new_height, 1)
    &&& size.0 == 0 || size.1 == 0 || size == (new_width, new_height) || buffer_fits(
        size.0,
        new_height,
        16,
    )
}

impl GrayPicture {
    /// Width and height, from `ImageBuffer::dimensions`. A picture holds one
    /// pixel for each cell of its width and height.
    #[verifier::external_body]
    fn dimensions(&self) -> (size: (u32, u32))
        ensures
            size == picture_size(*self),
            picture_pixels(*self).len() == size.0 * size.1,
    {
        self.inner.dimensions()
    }

    /// A picture of the given size with every pixel zero, from
    /// `ImageBuffer::new`. That function panics where the number of bytes
    /// is more than a buffer can have, which the precondition leaves out.
    #[verifier::external_body]
    fn blank(width: u32, height: u32) -> (picture: GrayPicture)
        requires
            buffer_fits(width, height, 1),
        ensures
            picture_size(picture) == (width, height),
            picture_pixels(picture) == Seq::new((width * height) as nat, |i: int| 0u8),
    {
        GrayPicture { inner: image::GrayImage::new(width, height) }
    }

    /// The pixel of column `x` and row `y`, from `ImageBuffer::get_pixel`,
    /// which panics outside the picture.
    #[verifier::external_body]
    fn get(&self, x: u32, y: u32) -> (value: u8)
        requires
            x < picture_size(*self).0,
            y < picture_size(*self).1,
        ensures
            value == picture_pixels(*self)[y * picture_size(*self).0 + x],
    {
        self.inner.get_pixel(x, y).0[0]
    }

    /// Sets the pixel of column `x` and row `y` with `ImageBuffer::put_pixel`,
    /// which panics outside the picture. The other pixels and the size stay.
    #[verifier::external_body]
    fn put(&mut self, x: u32, y: u32, value: u8)
        requires
            x < picture_size(*old(self)).0,
            y < picture_size(*old(self)).1,
        ensures
            picture_size(*final(self)) == picture_size(*old(self)),
            picture_pixels(*final(self)) == picture_pixels(*old(self)).update(
                y * picture_size(*old(self)).0 + x,
                value,
            ),
    {
        self.inner.put_pixel(x, y, image::Luma([value]));
    }

    /// This picture at another size, from `image::imageops::resize` with the
    /// filter `Nearest`. The result has the size that was asked for; its
    /// pixels are those that the filter picks, which depend on the pixels
    /// and the two sizes alone. The function panics where one of the buffers
    /// that it builds is more than a buffer can have, which the precondition
    /// leaves out.
    #[verifier::external_body]
    fn resized(&self, width: u32, height: u32) -> (picture: GrayPicture)
        requires
            resize_fits(picture_size(*self), width, height),
        ensures
            picture_size(picture) == (width, height),
            picture_pixels(picture) == nearest_resized(
                picture_pixels(*self),
                picture_size(*self).0,
                picture_size(*self).1,
                width,
                height,
            ),
    {
        let filter = image::imageops::FilterType::Nearest;
        GrayPicture { inner: image::imageops::resize(&self.inner, width, height, filter) }
    }

    /// Width of the picture in pixels.
    pub fn width(&self) -> (width: u32)
        ensures
            width == picture_size(*self).0,
    {
        self.dimensions().0
    }

    /// Height of the picture in pixels.
    pub fn height(&self) -> (height: u32)
        ensures
            height == picture_size(*self).1,
    {
        self.dimensions().1
    }

    /// The pixel of column `x` and row `y`, where the picture has one.
    pub fn pixel(&self, x: u32, y: u32) -> (value: Option<u8>)
        ensures
            value == pixel_at(picture_pixels(*self), picture_size(*self), x, y),
    {
        let (width, height) = self.dimensions();
        if x < width && y < height {
            Some(self.get(x, y))
        } else {
            None
        }
    }

    /// A picture of the given size from its pixels, row after row. There is
    /// none where the number of pixels is not that of the cells, nor where
    /// no buffer could hold them.
    pub fn from_pixels(width: u32, height: u32, pixels: &Vec<u8>) -> (made: Option<GrayPicture>)
        ensures
            made.is_some() <==> pixels@.len() == width * height && buffer_fits(width, height, 1),
            made matches Some(picture) ==> picture_size(picture) == (width, height)
                && picture_pixels(picture) == pixels@,
    {
        proof {
            lemma_cells_are_bounded(width, height);
        }
        let cells: u64 = width as u64 * height as u64;
        if pixels.len() as u64 != cells || cells > isize::MAX as u64 {
            return None;
        }
        let mut picture = GrayPicture::blank(width, height);
        let mut row_start: u64 = 0;
        let mut y: u32 = 0;
        while y < height
            invariant
                y <= height,
                row_start == y * width,
                pixels@.len() == width * height,
                pixels@.len() <= usize::MAX <= u64::MAX,
                picture_size(picture) == (width, height),
                picture_pixels(picture).len() == pixels@.len(),
                forall|i: int| 0 <= i < row_start ==> picture_pixels(picture)[i] == pixels@[i],
            decreases height - y,
        {
            proof {
                lemma_row_lies_within(width, height, y);
            }
            let mut x: u32 = 0;
            while x < width
                invariant
                    x <= width,
                    y < height,
                    row_start == y * width,
                    row_start + width <= pixels@.len() <= usize::MAX <= u64::MAX,
                    picture_size(picture) == (width, height),
                    picture_pixels(picture).len() == pixels@.len(),
                    forall|i: int|
                        0 <= i < row_start + x ==> picture_pixels(picture)[i] == pixels@[i],
                decreases width - x,
            {
                picture.put(x, y, pixels[(row_start + x as u64) as usize]);
                x += 1;
            }
            row_start = row_start + width as u64;
            y += 1;
        }
        assert(height * width == width * height) by (nonlinear_arith);
        assert(picture_pixels(picture) =~= pixels@);
        Some(picture)
    }

    /// The pixels of the picture, row after row.
    pub fn to_pixels(&self) -> (pixels: Vec<u8>)
        ensures
            pixels@ == picture_pixels(*self),
    {
        let (width, height) = self.dimensions();
        let mut pixels: Vec<u8> = Vec::new();
        let ghost mut row_start: int = 0;
        let mut y: u32 = 0;
        while y < height
            invariant
                y <= height,
                row_start == y * width,
                picture_size(*self) == (width, height),
                picture_pixels(*self).len() == width * height,
                pixels@.len() == row_start,
                forall|i: int| 0 <= i < row_start ==> pixels@[i] == picture_pixels(*self)[i],
            decreases height - y,
        {
            proof {
                lemma_row_lies_within(width, height, y);
            }
            let mut x: u32 = 0;
            while x < width
                invariant
                    x <= width,
                    y < height,
                    row_start == y * width,
                    row_start + width <= picture_pixels(*self).len(),
                    picture_size(*self) == (width, height),
                    pixels@.len() == row_start + x,
                    forall|i: int|
                        0 <= i < row_start + x ==> pixels@[i] == picture_pixels(*self)[i],
                decreases width - x,
            {
                pixels.push(self.get(x, y));
                x += 1;
            }
            proof {
                row_start = row_start + width;
            }
            y += 1;
        }
        assert(height * width == width * height) by (nonlinear_arith);
        assert(pixels@ =~= picture_pixels(*self));
        pixels
    }
}

/// The pixel of column `x` and row `y` among `pixels`, if the size has such
/// a cell.
pub open spec fn pixel_at(pixels: Seq<u8>, size: (u32, u32), x: u32, y: u32) -> Option<u8> {
    if x < size.0 && y < size.1 {
        Some(pixels[y * size.0 + x])
    } else {
        None
    }
}

/// A row of a picture lies within its cells, and the next row starts where
/// it ends.
proof fn lemma_row_lies_within(width: u32, height: u32, y: u32)
    requires
        y < height,
    ensures
        0 <= y * width,
        y * width + width <= width * height,
        (y + 1) * width == y * width + width,
        y == height - 1 ==> y * width + width == width * height,
{
    assert((y + 1) * width == y * width + width) by (nonlinear_arith);
    assert(0 <= y * width && (y + 1) * width <= height * width) by (nonlinear_arith)
        requires
            0 <= y,
            y + 1 <= height,
            0 <= width,
    ;
    assert(width * height == height * width) by (nonlinear_arith);
}

/// The number of cells of a picture fits in 64 bits.
proof fn lemma_cells_are_bounded(width: u32, height: u32)
    ensures
        0 <= width * height <= 0xFFFF_FFFF * 0xFFFF_FFFF,
{
    assert(0 <= width * height <= 0xFFFF_FFFF * 0xFFFF_FFFF) by (nonlinear_arith)
        requires
            0 <= width <= 0xFFFF_FFFF,
            0 <= height <= 0xFFFF_FFFF,
    ;
}

/// Black for a dark pixel, white for a light one.
pub open spec fn black_or_white(value: u8) -> u8 {
    if value < LIGHT_FROM {
        0
    } else {
        255
    }
}

/// The pixels cut down to black and white, each on its own.
pub open spec fn binarized(pixels: Seq<u8>) -> Seq<u8> {
    pixels.map_values(|value: u8| black_or_white(value))
}

/// The character that stands for a pixel: a space for a dark one, `glyph`
/// for a light one.
pub open spec fn glyph_for(value: u8, glyph: char) -> char {
    if value < LIGHT_FROM {
        ' '
    } else {
        glyph
    }
}

/// The row `row` of a picture as text, one character for each pixel.
pub open spec fn line_of(pixels: Seq<u8>, width: u32, row: int, glyph: char) -> Seq<char> {
    Seq::new(width as nat, |x: int| glyph_for(pixels[row * width + x], glyph))
}

/// A picture as lines of text. A cell of the terminal is about twice as
/// high as it is wide, so every other row is left out: the lines are the
/// rows 0, 2, 4 and so on.
pub open spec fn lines_of(pixels: Seq<u8>, size: (u32, u32), glyph: char) -> Seq<Seq<char>> {
    Seq::new(((size.1 + 1) / 2) as nat, |k: int| line_of(pixels, size.0, 2 * k, glyph))
}

/// The lines as sequences of characters.
pub open spec fn texts(lines: Seq<String>) -> Seq<Seq<char>> {
    lines.map_values(|line: String| line@)
}

/// Whether a buffer for `width * height` elements of one byte can be had.
fn fits_bytes(width: u32, height: u32) -> (fits: bool)
    ensures
        fits == buffer_fits(width, height, 1),
{
    proof {
        lemma_cells_are_bounded(width, height);
    }
    width as u64 * height as u64 <= isize::MAX as u64
}

/// Whether a buffer for `width * height` pixels of four floats can be had.
fn fits_floats(width: u32, height: u32) -> (fits: bool)
    ensures
        fits == buffer_fits(width, height, 16),
{
    proof {
        lemma_cells_are_bounded(width, height);
    }
    width as u64 * height as u64 <= isize::MAX as u64 / 16
}

/// Whether a picture of the given size can be resized to the new size.
pub fn can_resize(size: (u32, u32), new_width: u32, new_height: u32) -> (fits: bool)
    ensures
        fits == resize_fits(size, new_width, new_height),
{
    fits_bytes(new_width, new_height) && (size.0 == 0 || size.1 == 0 || (size.0 == new_width
        && size.1 == new_height) || fits_floats(size.0, new_height))
}

/// Cuts the picture down to black and white where it stands: each pixel
/// below `LIGHT_FROM` becomes 0 and each other one 255.
pub fn cut_to_black_and_white(picture: &mut GrayPicture)
    ensures
        picture_size(*final(picture)) == picture_size(*old(picture)),
        picture_pixels(*final(picture)) == binarized(picture_pixels(*old(picture))),
{
    let (width, height) = picture.dimensions();
    let ghost before = picture_pixels(*picture);
    let ghost mut row_start: int = 0;
    let mut y: u32 = 0;
    while y < height
        invariant
            y <= height,
            row_start == y * width,
            picture_size(*picture) == (width, height),
            before.len() == width * height,
            picture_pixels(*picture).len() == before.len(),
            forall|i: int|
                0 <= i < row_start ==> picture_pixels(*picture)[i] == black_or_white(before[i]),
            forall|i: int| row_start <= i < before.len() ==> picture_pixels(*picture)[i] == before[i],
        decreases height - y,
    {
        proof {
            lemma_row_lies_within(width, height, y);
        }
        let mut x: u32 = 0;
        while x < width
            invariant
                x <= width,
                y < height,
                row_start == y * width,
                row_start + width <= before.len(),
                picture_size(*picture) == (width, height),
                picture_pixels(*picture).len() == before.len(),
                forall|i: int|
                    0 <= i < row_start + x ==> picture_pixels(*picture)[i] == black_or_white(
                        before[i],
                    ),
                forall|i: int|
                    row_start + x <= i < before.len() ==> picture_pixels(*picture)[i] == before[i],
            decreases width - x,
        {
            let pixel = picture.get(x, y);
            let bw_pixel: u8 = if pixel < LIGHT_FROM {
                0
            } else {
                255
            };
            picture.put(x, y, bw_pixel);
            x += 1;
        }
        proof {
            row_start = row_start + width;
        }
        y += 1;
    }
    assert(height * width == width * height) by (nonlinear_arith);
    assert(picture_pixels(*picture) =~= binarized(before));
}

/// The picture at the given size and in black and white: it is resized with
/// the nearest pixel for each new one, and then cut down to black and white.
pub fn resize_image(img: &GrayPicture, width: u32, height: u32) -> (binary: GrayPicture)
    requires
        resize_fits(picture_size(*img), width, height),
    ensures
        picture_size(binary) == (width, height),
        picture_pixels(binary) == binarized(
            nearest_resized(
                picture_pixels(*img),
                picture_size(*img).0,
                picture_size(*img).1,
                width,
                height,
            ),
        ),
{
    let mut binary = img.resized(width, height);
    cut_to_black_and_white(&mut binary);
    binary
}

/// One row of a picture as a line of text.
fn line_text(picture: &GrayPicture, y: u32, glyph: char) -> (line: String)
    requires
        y < picture_size(*picture).1,
    ensures
        line@ == line_of(picture_pixels(*picture), picture_size(*picture).0, y as int, glyph),
{
    let (width, height) = picture.dimensions();
    proof {
        lemma_row_lies_within(width, height, y);
    }
    let mut line = String::new();
    let mut x: u32 = 0;
    while x < width
        invariant
            x <= width,
            y < height,
            picture_size(*picture) == (width, height),
            line@.len() == x,
            forall|i: int|
                0 <= i < x ==> line@[i] == glyph_for(
                    picture_pixels(*picture)[y * width + i],
                    glyph,
                ),
        decreases width - x,
    {
        let pixel = picture.get(x, y);
        let char_to_print = if pixel < LIGHT_FROM {
            ' '
        } else {
            glyph
        };
        push_char(&mut line, char_to_print);
        x += 1;
    }
    assert(line@ =~= line_of(picture_pixels(*picture), width, y as int, glyph));
    line
}

/// The picture as lines of text, from the top: a space for each dark pixel
/// and `glyph` for each light one, of every other row.
pub fn frame_lines(picture: &GrayPicture, glyph: char) -> (lines: Vec<String>)
    ensures
        texts(lines@) == lines_of(picture_pixels(*picture), picture_size(*picture), glyph),
{
    let (width, height) = picture.dimensions();
    let count: u32 = ((height as u64 + 1) / 2) as u32;
    let mut lines: Vec<String> = Vec::new();
    let mut k: u32 = 0;
    while k < count
        invariant
            k <= count,
            count == (height + 1) / 2,
            picture_size(*picture) == (width, height),
            lines@.len() == k,
            forall|i: int|
                0 <= i < k ==> (#[trigger] lines@[i])@ == line_of(
                    picture_pixels(*picture),
                    width,
                    2 * i,
                    glyph,
                ),
        decreases count - k,
    {
        lines.push(line_text(picture, 2 * k, glyph));
        k += 1;
    }
    assert(texts(lines@) =~= lines_of(picture_pixels(*picture), picture_size(*picture), glyph));
    lines
}

/// Whether a frame can be drawn for a terminal of the given size: twice the
/// rows and the columns must fit the pictures' coordinates, and the picture
/// must be resizable to them.
pub open spec fn frame_fits(size: (u32, u32), term_width: usize, term_height: usize) -> bool {
    &&& term_width <= u32::MAX
    &&& 2 * term_height <= u32::MAX
    &&& resize_fits(size, term_width as u32, (2 * term_height) as u32)
}

/// A frame of a video as text for a terminal of `term_width` columns and
/// `term_height` rows: the picture is brought to the terminal's width and
/// twice its height, cut down to black and white, and every other row is
/// turned into a line. There is no frame where the sizes do not fit.
pub fn render_frame(picture: &GrayPicture, term_width: usize, term_height: usize, glyph: char) -> (frame:
    Option<Vec<String>>)
    ensures
        frame.is_some() <==> frame_fits(picture_size(*picture), term_width, term_height),
        frame matches Some(lines) ==> texts(lines@) == lines_of(
            binarized(
                nearest_resized(
                    picture_pixels(*picture),
                    picture_size(*picture).0,
                    picture_size(*picture).1,
                    term_width as u32,
                    (2 * term_height) as u32,
                ),
            ),
            (term_width as u32, (2 * term_height) as u32),
            glyph,
        ),
{
    if term_width > 0xFFFF_FFFF || term_height > 0x7FFF_FFFF {
        return None;
    }
    let width = term_width as u32;
    let height = (term_height * 2) as u32;
    if !can_resize(picture.dimensions(), width, height) {
        return None;
    }
    let binary = resize_image(picture, width, height);
    Some(frame_lines(&binary, glyph))
}

} // verus!

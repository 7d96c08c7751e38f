//! The canvas that widgets are drawn on, and the conversion of its pixels
//! into the encoding of the display.

use vstd::prelude::*;

use crate::fonts::FontRegistry;
use crate::geometry::Rectangle;
use crate::platform::{native_color, rgb565_le};

verus! {

/// The offset of the pixel `(x, y)` in the buffer of a canvas of the given
/// width. A pixel takes four bytes: alpha, red, green, blue.
pub open spec fn pixel_offset(width: u32, x: int, y: int) -> int {
    (y * width + x) * 4
}

/// The byte at position `k` of the native frame of a region: the pixels of the
/// region row by row, each as two bytes in the display's encoding.
pub open spec fn native_byte(data: Seq<u8>, width: u32, region: Rectangle, k: int) -> u8 {
    let pixel = k / 2;
    let row = pixel / (region.width as int);
    let column = pixel % (region.width as int);
    let at = pixel_offset(width, region.x + column, region.y + row);
    let native = rgb565_le(data[at + 1], data[at + 2], data[at + 3]);
    if k % 2 == 0 {
        native.0
    } else {
        native.1
    }
}

/// The pixels of a region of a canvas in the display's encoding.
pub open spec fn native_frame(data: Seq<u8>, width: u32, region: Rectangle) -> Seq<u8> {
    Seq::new(
        (region.width * region.height * 2) as nat,
        |k: int| native_byte(data, width, region, k),
    )
}

/// A pixel inside a canvas has its four bytes inside the canvas's buffer.
pub proof fn lemma_pixel_in_buffer(width: u32, height: u32, x: int, y: int)
    requires
        0 <= x < width,
        0 <= y < height,
    ensures
        0 <= y * width <= y * width + x < width * height,
        0 <= pixel_offset(width, x, y),
        pixel_offset(width, x, y) + 4 <= width * height * 4,
{
    assert(y * width + x + 1 <= height * width) by (nonlinear_arith)
        requires
            0 <= x < width,
            0 <= y < height,
    ;
    assert(0 <= y * width) by (nonlinear_arith)
        requires
            0 <= y,
            0 <= width,
    ;
    assert(height * width == width * height) by (nonlinear_arith);
}

/// The pixel at `(row, column)` of a region is the pixel number
/// `row * region.width + column` of its frame.
proof fn lemma_pixel_number(width: int, row: int, column: int)
    requires
        0 <= column < width,
        0 <= row,
    ensures
        (row * width + column) / width == row,
        (row * width + column) % width == column,
        (2 * (row * width + column)) / 2 == row * width + column,
        (2 * (row * width + column) + 1) / 2 == row * width + column,
{
    vstd::arithmetic::div_mod::lemma_fundamental_div_mod_converse(
        row * width + column,
        width,
        row,
        column,
    );
}

/// The pixel at `(row, column)` of a region stands in the frame of the region
/// behind the pixels of the rows above it and of the columns to its left, as
/// the two bytes of its red, green and blue channels.
pub proof fn lemma_frame_pixel(data: Seq<u8>, width: u32, region: Rectangle, row: int, column: int)
    requires
        0 <= row < region.height,
        0 <= column < region.width,
    ensures
        ({
            let k = 2 * (row * region.width + column);
            let at = pixel_offset(width, region.x + column, region.y + row);
            let native = rgb565_le(data[at + 1], data[at + 2], data[at + 3]);
            &&& 0 <= k
            &&& k + 1 < native_frame(data, width, region).len()
            &&& native_frame(data, width, region)[k] == native.0
            &&& native_frame(data, width, region)[k + 1] == native.1
        }),
{
    lemma_pixel_number(region.width as int, row, column);
    assert(0 <= row * region.width && row * region.width + column + 1 <= region.height
        * region.width) by (nonlinear_arith)
        requires
            0 <= row < region.height,
            0 <= column < region.width,
    ;
    assert(region.width * region.height * 2 == 2 * (region.height * region.width))
        by (nonlinear_arith);
}

/// A canvas: a buffer of pixels and the fonts to draw text with.
pub struct RenderContext2D {
    width: u32,
    height: u32,
    data: Vec<u8>,
    fonts: FontRegistry,
}

impl RenderContext2D {
    #[verifier::type_invariant]
    spec fn well_formed(self) -> bool {
        self.data.len() == self.width * self.height * 4
    }

    /// The width of the canvas in pixels.
    pub closed spec fn spec_width(&self) -> u32 {
        self.width
    }

    /// The height of the canvas in pixels.
    pub closed spec fn spec_height(&self) -> u32 {
        self.height
    }

    /// The pixel buffer: four bytes for each pixel, row by row.
    pub closed spec fn pixels(&self) -> Seq<u8> {
        self.data@
    }

    /// The registered fonts by family.
    pub closed spec fn fonts(&self) -> Map<Seq<char>, Seq<u8>> {
        self.fonts@
    }

    /// A canvas without pixels and without fonts.
    fn empty() -> (context: RenderContext2D)
        ensures
            context.width == 0,
            context.height == 0,
    {
        RenderContext2D { width: 0, height: 0, data: Vec::new(), fonts: FontRegistry::new() }
    }

    /// Creates a canvas of the given size with every byte zero and no font.
    pub fn new(width: u32, height: u32) -> (context: RenderContext2D)
        requires
            width * height * 4 <= usize::MAX,
        ensures
            context.spec_width() == width,
            context.spec_height() == height,
            context.pixels() == Seq::new((width * height * 4) as nat, |i: int| 0u8),
            context.fonts() == Map::<Seq<char>, Seq<u8>>::empty(),
    {
        assert(width * height <= usize::MAX) by (nonlinear_arith)
            requires
                width * height * 4 <= usize::MAX,
                0 <= width,
                0 <= height,
        ;
        let size: usize = (width as usize) * (height as usize) * 4;
        let mut data: Vec<u8> = Vec::new();
        let mut filled: usize = 0;
        while filled < size
            invariant
                filled <= size,
                data@ == Seq::new(filled as nat, |i: int| 0u8),
            decreases size - filled,
        {
            data.push(0);
            filled += 1;
        }
        RenderContext2D { width, height, data, fonts: FontRegistry::new() }
    }

    /// The width of the canvas in pixels.
    #[verifier::when_used_as_spec(spec_width)]
    pub fn width(&self) -> (width: u32)
        ensures
            width == self.spec_width(),
    {
        self.width
    }

    /// The height of the canvas in pixels.
    #[verifier::when_used_as_spec(spec_height)]
    pub fn height(&self) -> (height: u32)
        ensures
            height == self.spec_height(),
    {
        self.height
    }

    /// The pixel buffer, whose length is four bytes for each pixel.
    pub fn data_u8(&self) -> (data: &Vec<u8>)
        ensures
            data@ == self.pixels(),
            data@.len() == self.spec_width() * self.spec_height() * 4,
    {
        proof {
            use_type_invariant(self);
        }
        &self.data
    }

    /// Sets the pixel at `(x, y)`.
    pub fn set_pixel(&mut self, x: u32, y: u32, alpha: u8, red: u8, green: u8, blue: u8)
        requires
            x < old(self).spec_width(),
            y < old(self).spec_height(),
        ensures
            final(self).spec_width() == old(self).spec_width(),
            final(self).spec_height() == old(self).spec_height(),
            final(self).fonts() == old(self).fonts(),
            final(self).pixels() == old(self).pixels().update(
                pixel_offset(old(self).spec_width(), x as int, y as int),
                alpha,
            ).update(pixel_offset(old(self).spec_width(), x as int, y as int) + 1, red).update(
                pixel_offset(old(self).spec_width(), x as int, y as int) + 2,
                green,
            ).update(pixel_offset(old(self).spec_width(), x as int, y as int) + 3, blue),
    {
        proof {
            use_type_invariant(&*self);
            lemma_pixel_in_buffer(self.width, self.height, x as int, y as int);
        }
        let at: usize = ((y as usize) * (self.width as usize) + (x as usize)) * 4;
        let mut taken = RenderContext2D::empty();
        std::mem::swap(self, &mut taken);
        let RenderContext2D { width, height, data, fonts } = taken;
        let mut data = data;
        data.set(at, alpha);
        data.set(at + 1, red);
        data.set(at + 2, green);
        data.set(at + 3, blue);
        *self = RenderContext2D { width, height, data, fonts };
    }

    /// Registers a font under a family name, in place of the font that the
    /// family had, if it had one.
    pub fn register_font(&mut self, family: &str, font: &'static [u8])
        ensures
            final(self).spec_width() == old(self).spec_width(),
            final(self).spec_height() == old(self).spec_height(),
            final(self).pixels() == old(self).pixels(),
            final(self).fonts() == old(self).fonts().insert(family@, font@),
    {
        proof {
            use_type_invariant(&*self);
        }
        let mut taken = RenderContext2D::empty();
        std::mem::swap(self, &mut taken);
        let RenderContext2D { width, height, data, fonts } = taken;
        let mut fonts = fonts;
        fonts.insert(family.to_owned(), font);
        *self = RenderContext2D { width, height, data, fonts };
    }

    /// The pixels of a region of the canvas in the display's encoding: row by
    /// row, two bytes for each pixel, from the red, green and blue channels.
    pub fn frame(&self, region: Rectangle) -> (frame: Vec<u8>)
        requires
            region.fits(self.spec_width(), self.spec_height()),
        ensures
            frame@ == native_frame(self.pixels(), self.spec_width(), region),
    {
        proof {
            use_type_invariant(self);
        }
        let mut frame: Vec<u8> = Vec::new();
        let mut row: u32 = 0;
        while row < region.height
            invariant
                row <= region.height,
                region.fits(self.width, self.height),
                self.data.len() == self.width * self.height * 4,
                frame@.len() == 2 * (row * region.width),
                forall|k: int|
                    0 <= k < frame@.len() ==> frame@[k] == native_byte(
                        self.data@,
                        self.width,
                        region,
                        k,
                    ),
            decreases region.height - row,
        {
            let mut column: u32 = 0;
            while column < region.width
                invariant
                    row < region.height,
                    column <= region.width,
                    region.fits(self.width, self.height),
                    self.data.len() == self.width * self.height * 4,
                    frame@.len() == 2 * (row * region.width + column),
                    forall|k: int|
                        0 <= k < frame@.len() ==> frame@[k] == native_byte(
                            self.data@,
                            self.width,
                            region,
                            k,
                        ),
                decreases region.width - column,
            {
                proof {
                    lemma_pixel_in_buffer(
                        self.width,
                        self.height,
                        region.x + column,
                        region.y + row,
                    );
                    lemma_pixel_number(region.width as int, row as int, column as int);
                }
                let x: usize = (region.x + column) as usize;
                let y: usize = (region.y + row) as usize;
                let at: usize = (y * (self.width as usize) + x) * 4;
                let native = native_color(self.data[at + 1], self.data[at + 2], self.data[at + 3]);
                frame.push(native.0);
                frame.push(native.1);
                column += 1;
            }
            assert(2 * (row * region.width + region.width) == 2 * ((row + 1) * region.width))
                by (nonlinear_arith);
            row += 1;
        }
        assert(region.width * region.height * 2 == 2 * (region.height * region.width))
            by (nonlinear_arith);
        assert(frame@ =~= native_frame(self.data@, self.width, region));
        frame
    }
}

} // verus!

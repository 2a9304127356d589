//! The display: 64 by 32 monochrome pixels, eight to a byte.

use vstd::prelude::*;
use crate::machine::{Emulator, Machine};

verus! {

/// The number of pixels in a row of the display.
pub const DISPLAY_WIDTH: u16 = 64;

/// The number of rows of the display.
pub const DISPLAY_HEIGHT: u16 = 32;

/// The number of pixels of the display.
pub const TOTAL_PIXELS: u16 = 64 * 32;

/// The number of bytes that hold the pixels.
pub const DISPLAY_BYTES: usize = 256;

/// Whether bit `k` of `byte` is set, bit 0 being the least significant.
pub open spec fn bit_of(byte: u8, k: u8) -> bool {
    (byte >> k) & 1 == 1
}

/// The pixels that the display bytes `disp` hold.
pub open spec fn pixels_of(disp: Seq<u8>) -> Seq<bool> {
    Seq::new(TOTAL_PIXELS as nat, |p: int| bit_of(disp[p / 8], (p % 8) as u8))
}

/// The place on the display that the pixel index `pixel` names: indices wrap
/// at the number of pixels.
pub open spec fn wrap_pixel(pixel: int) -> int {
    pixel % (TOTAL_PIXELS as int)
}

/// The pixels after `bit` was XORed into the pixel at `pixel`.
pub open spec fn toggled(pixels: Seq<bool>, pixel: int, bit: bool) -> Seq<bool> {
    pixels.update(wrap_pixel(pixel), pixels[wrap_pixel(pixel)] != bit)
}

/// Whether XORing `bit` into the pixel at `pixel` erases it: the pixel was
/// lit and the bit is set, so that the pixel goes dark.
pub open spec fn erases(pixels: Seq<bool>, pixel: int, bit: bool) -> bool {
    pixels[wrap_pixel(pixel)] && bit
}

/// One pixel as the display sink takes it: where it stands and whether it is
/// lit.
#[derive(Clone, Copy, Debug, PartialEq, Eq)]
pub struct Pixel {
    /// The column, from 0 at the left to 63.
    pub column: u16,
    /// The row, from 0 at the top to 31.
    pub row: u16,
    /// Whether the pixel is lit.
    pub lit: bool,
}

/// The pixel with index `p` of the display `pixels`.
pub open spec fn pixel_at(pixels: Seq<bool>, p: int) -> Pixel {
    Pixel {
        column: (p % (DISPLAY_WIDTH as int)) as u16,
        row: (p / (DISPLAY_WIDTH as int)) as u16,
        lit: pixels[p],
    }
}

/// A display in which no pixel is lit.
pub open spec fn blank() -> Seq<bool> {
    Seq::new(TOTAL_PIXELS as nat, |p: int| false)
}

/// XORing a bit into one place of a byte flips that place where the bit is
/// set, and leaves every other place as it was.
proof fn lemma_xor_one_bit(byte: u8, bit: u8, k: u8, j: u8)
    by (bit_vector)
    requires
        k < 8,
        j < 8,
        bit <= 1,
    ensures
        (((byte ^ (bit << k)) >> j) & 1 == 1) == (if j == k {
            ((byte >> j) & 1 == 1) != (bit == 1)
        } else {
            (byte >> j) & 1 == 1
        }),
{
}

/// Display bytes that are all zero hold no lit pixel.
pub proof fn lemma_zero_bytes_are_blank(disp: Seq<u8>)
    requires
        disp.len() == DISPLAY_BYTES,
        forall|i: int| 0 <= i < DISPLAY_BYTES ==> disp[i] == 0u8,
    ensures
        pixels_of(disp) == blank(),
{
    assert forall|p: int| 0 <= p < TOTAL_PIXELS implies !(#[trigger] pixels_of(disp)[p]) by {
        let k: u8 = (p % 8) as u8;
        assert(disp[p / 8] == 0u8);
        assert((0u8 >> k) & 1 != 1) by (bit_vector);
    }
    assert(pixels_of(disp) =~= blank());
}

impl Emulator {
    /// Reads one pixel: 1 where it is lit, 0 where it is dark.
    pub fn readPixel(&self, pixel: u16) -> (value: u8)
        ensures
            value == if self@.pixels[wrap_pixel(pixel as int)] {
                1u8
            } else {
                0u8
            },
    {
        let wrapped: u16 = pixel % TOTAL_PIXELS;
        let px_o: u8 = (wrapped % 8) as u8;
        let px_i: usize = (wrapped / 8) as usize;
        let byte: u8 = self.disp[px_i];
        assert((byte >> px_o) & 1 <= 1) by (bit_vector);
        (byte >> px_o) & 0x1
    }

    /// XORs the lowest bit of `value` into one pixel. Returns 1 where that
    /// erased the pixel (it was lit, the bit was set, and it is dark now), and
    /// 0 otherwise. Nothing but that pixel changes.
    pub fn writePixel(&mut self, pixel: u16, value: u8) -> (erased: u8)
        ensures
            final(self)@ == (Machine {
                pixels: toggled(old(self)@.pixels, pixel as int, value % 2 == 1),
                ..old(self)@
            }),
            erased == if erases(old(self)@.pixels, pixel as int, value % 2 == 1) {
                1u8
            } else {
                0u8
            },
    {
        let wrapped: u16 = pixel % TOTAL_PIXELS;
        let px_o: u8 = (wrapped % 8) as u8;
        let px_i: usize = (wrapped / 8) as usize;
        assert(value & 1 == value % 2) by (bit_vector);
        let bit: u8 = value & 0x1;
        let before: u8 = self.disp[px_i];
        let was: u8 = (before >> px_o) & 0x1;
        self.disp[px_i] = before ^ (bit << px_o);
        proof {
            let goal: Seq<bool> = toggled(old(self)@.pixels, pixel as int, value % 2 == 1);
            assert forall|p: int| 0 <= p < TOTAL_PIXELS implies #[trigger] self@.pixels[p]
                == goal[p] by {
                if p / 8 == px_i as int {
                    lemma_xor_one_bit(before, bit, px_o, (p % 8) as u8);
                }
            }
            assert(self@.pixels =~= goal);
        }
        if was == 1 && bit == 1 {
            1
        } else {
            0
        }
    }

    /// Darkens every pixel. Nothing but the display changes.
    pub fn clear(&mut self)
        ensures
            final(self)@ == (Machine { pixels: blank(), ..old(self)@ }),
    {
        self.disp = [0u8; 256];
        proof {
            lemma_zero_bytes_are_blank(self.disp@);
        }
    }

    /// Lists every pixel for the display sink, row by row from the top and
    /// from left to right within a row. The machine is not changed, and the
    /// list can be asked for again at any time.
    pub fn draw(&self) -> (cells: Vec<Pixel>)
        ensures
            cells@ == Seq::new(TOTAL_PIXELS as nat, |p: int| pixel_at(self@.pixels, p)),
    {
        let mut cells: Vec<Pixel> = Vec::new();
        let mut i: u16 = 0;
        while i < TOTAL_PIXELS
            invariant
                i <= TOTAL_PIXELS,
                cells@.len() == i,
                forall|p: int| 0 <= p < i ==> cells@[p] == pixel_at(self@.pixels, p),
            decreases TOTAL_PIXELS - i,
        {
            let lit: bool = self.readPixel(i) == 1;
            cells.push(Pixel { column: i % DISPLAY_WIDTH, row: i / DISPLAY_WIDTH, lit });
            i += 1;
        }
        assert(cells@ =~= Seq::new(TOTAL_PIXELS as nat, |p: int| pixel_at(self@.pixels, p)));
        cells
    }
}

/// XORing the same bit into the same pixel twice restores the display.
pub proof fn lemma_toggle_twice(pixels: Seq<bool>, pixel: u16, bit: bool)
    requires
        pixels.len() == TOTAL_PIXELS,
    ensures
        toggled(toggled(pixels, pixel as int, bit), pixel as int, bit) == pixels,
{
    assert(toggled(toggled(pixels, pixel as int, bit), pixel as int, bit) =~= pixels);
}

} // verus!

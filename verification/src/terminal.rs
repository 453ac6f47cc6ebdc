//! The terminal's picture of a frame.
//!
//! A terminal cell is twice as high as it is wide, so one cell shows two
//! pixels, one above the other: an upper half block whose foreground is the
//! upper pixel and whose background is the lower one. This module pairs the
//! pixels; writing the cells to a terminal is the caller's part.

use vstd::prelude::*;
use crate::color::{blue, channels, green, red};
use crate::world::texel_index;

verus! {

/// The size, in pixels, of the frames that a terminal shows.
pub struct Terminal {
    width: usize,
    height: usize,
}

/// One terminal cell: the colours of its upper and of its lower half.
#[derive(Clone, Copy, Debug)]
pub struct HalfBlock {
    pub top: (u8, u8, u8),
    pub bottom: (u8, u8, u8),
}

/// The cell that shows column `col` of the pixel rows `row` and `row + 1` of a
/// frame `width` pixels wide. Where the frame ends before the lower pixel, the
/// lower half is black.
pub open spec fn half_block(frame: Seq<u32>, width: int, row: int, col: int) -> HalfBlock {
    HalfBlock {
        top: channels(frame[row * width + col]),
        bottom: if (row + 1) * width + col < frame.len() {
            channels(frame[(row + 1) * width + col])
        } else {
            (0u8, 0u8, 0u8)
        },
    }
}

/// The row of cells that shows the pixel rows `row` and `row + 1` of a frame.
pub open spec fn half_block_line(frame: Seq<u32>, width: int, row: int) -> Seq<HalfBlock> {
    Seq::new(width as nat, |col: int| half_block(frame, width, row, col))
}

impl Terminal {
    /// Pixels in a row of the frame.
    pub closed spec fn columns(&self) -> int {
        self.width as int
    }

    /// Pixel rows in the frame.
    pub closed spec fn rows(&self) -> int {
        self.height as int
    }

    /// Rows of cells that a frame takes: one for every two rows of pixels,
    /// and one for a last odd row.
    pub open spec fn cell_rows(&self) -> int {
        (self.rows() + 1) / 2
    }

    /// Whether a frame of `len` pixels reaches the upper pixel of every cell.
    pub open spec fn fits(&self, len: int) -> bool {
        self.rows() == 0 || (self.cell_rows() - 1) * 2 * self.columns() + self.columns() <= len
    }

    /// A terminal for frames of the given size.
    pub fn new(width: usize, height: usize) -> (terminal: Terminal)
        ensures
            terminal.columns() == width,
            terminal.rows() == height,
    {
        Terminal { width, height }
    }

    /// Whether a frame of `len` pixels reaches the upper pixel of every cell.
    pub fn fits_frame(&self, len: usize) -> (fits: bool)
        ensures
            fits == self.fits(len as int),
    {
        if self.height == 0 || self.width == 0 {
            return true;
        }
        let width = self.width;
        let lines: usize = (self.height - 1) / 2 * 2 + 1;
        assert(lines == (self.cell_rows() - 1) * 2 + 1);
        assert(lines * width == (self.cell_rows() - 1) * 2 * width + width) by (nonlinear_arith)
            requires
                lines == (self.cell_rows() - 1) * 2 + 1,
        ;
        assert(lines * width <= len <==> lines <= len / width) by (nonlinear_arith)
            requires
                0 < width,
                0 <= len,
                0 <= lines,
        ;
        lines <= len / width
    }

    /// The red, green and blue channel of a packed colour.
    pub fn unpack_rgb(&self, color: u32) -> (rgb: (u8, u8, u8))
        ensures
            rgb == channels(color),
            rgb.0 == red(color),
            rgb.1 == green(color),
            rgb.2 == blue(color),
    {
        let r: u32 = (color / 65536) % 256;
        let g: u32 = (color / 256) % 256;
        let b: u32 = color % 256;
        (r as u8, g as u8, b as u8)
    }

    /// The cells that show the pixel rows `row` and `row + 1` of a frame.
    pub fn half_block_row(&self, frame: &Vec<u32>, row: usize) -> (cells: Vec<HalfBlock>)
        requires
            row * self.columns() + self.columns() <= frame@.len(),
        ensures
            cells@ == half_block_line(frame@, self.columns(), row as int),
    {
        let width = self.width;
        let len = frame.len();
        let mut cells: Vec<HalfBlock> = Vec::new();
        if width == 0 {
            assert(cells@ =~= half_block_line(frame@, width as int, row as int));
            return cells;
        }
        assert(row * width <= len - width);
        assert((row + 1) * width == row * width + width) by (nonlinear_arith);
        let start: usize = row * width;
        let mut col: usize = 0;
        while col < width
            invariant
                0 < width,
                col <= width,
                width == self.columns(),
                len == frame@.len(),
                start == row * width,
                start + width <= len,
                (row + 1) * width == start + width,
                cells@.len() == col,
                forall|c: int|
                    0 <= c < col ==> #[trigger] cells@[c] == half_block(
                        frame@,
                        width as int,
                        row as int,
                        c,
                    ),
            decreases width - col,
        {
            let top_idx: usize = start + col;
            let top = self.unpack_rgb(frame[top_idx]);
            let bottom = if top_idx < len - width {
                self.unpack_rgb(frame[top_idx + width])
            } else {
                (0, 0, 0)
            };
            cells.push(HalfBlock { top, bottom });
            col += 1;
        }
        assert(cells@ =~= half_block_line(frame@, width as int, row as int));
        cells
    }

    /// The cells that show a frame, row of cells by row of cells.
    pub fn half_blocks(&self, frame: &Vec<u32>) -> (picture: Vec<Vec<HalfBlock>>)
        requires
            self.fits(frame@.len() as int),
        ensures
            picture@.len() == self.cell_rows(),
            forall|r: int|
                0 <= r < self.cell_rows() ==> (#[trigger] picture@[r])@ == half_block_line(
                    frame@,
                    self.columns(),
                    2 * r,
                ),
    {
        let width = self.width;
        let height = self.height;
        let mut picture: Vec<Vec<HalfBlock>> = Vec::new();
        let mut row: usize = 0;
        while row < height
            invariant
                width == self.columns(),
                height == self.rows(),
                self.fits(frame@.len() as int),
                row % 2 == 0,
                row <= height + 1,
                picture@.len() == row / 2,
                forall|r: int|
                    0 <= r < row / 2 ==> (#[trigger] picture@[r])@ == half_block_line(
                        frame@,
                        width as int,
                        2 * r,
                    ),
            decreases height + 1 - row,
        {
            proof {
                let last = (self.cell_rows() - 1) * 2;
                assert(row <= last);
                assert(row * width <= last * width) by (nonlinear_arith)
                    requires
                        row <= last,
                        0 <= width,
                ;
            }
            let cells = self.half_block_row(frame, row);
            picture.push(cells);
            if row >= usize::MAX - 1 {
                proof {
                    assert(height == usize::MAX || height == usize::MAX - 1);
                }
                return picture;
            }
            row += 2;
        }
        picture
    }

    /// The colours of row `y` of a block type's texture in an atlas.
    pub fn atlas_row(&self, textures: &Vec<u32>, block: usize, y: usize) -> (colors: Vec<
        (u8, u8, u8),
    >)
        requires
            y < 48,
            block * 768 + 768 <= textures@.len(),
        ensures
            colors@.len() == 16,
            forall|x: int|
                0 <= x < 16 ==> #[trigger] colors@[x] == channels(
                    textures@[texel_index(block as int, x, y as int)],
                ),
    {
        let len = textures.len();
        let mut colors: Vec<(u8, u8, u8)> = Vec::new();
        let mut x: usize = 0;
        while x < 16
            invariant
                x <= 16,
                y < 48,
                len == textures@.len(),
                block * 768 + 768 <= len,
                colors@.len() == x,
                forall|i: int|
                    0 <= i < x ==> #[trigger] colors@[i] == channels(
                        textures@[texel_index(block as int, i, y as int)],
                    ),
            decreases 16 - x,
        {
            colors.push(self.unpack_rgb(textures[x + y * 16 + block * 768]));
            x += 1;
        }
        colors
    }
}

} // verus!

use vstd::prelude::*;

use crate::position::{Side, side_from_fen, side_of_fen};

verus! {

/// A position to draw, as FEN text, and how to draw it.
pub struct Board {
    /// The position, in Forsyth-Edwards Notation.
    pub fen: String,
    /// Edge of one square, in pixels.
    pub units: u32,
    /// Corner radius of the border rectangles.
    pub corner_radius: u32,
    /// Space between the board and the edge of the image.
    pub margin: u32,
    /// Stroke width of the border.
    pub border: u32,
    /// Font family of the coordinate labels.
    pub font: String,
    /// Font size of the coordinate labels.
    pub font_size: u32,
    /// Name of the piece theme: the asset directory of the glyphs.
    pub pieces: String,
    /// Hex color of the light squares.
    pub color_light: String,
    /// Hex color of the dark squares.
    pub color_dark: String,
    /// Whether to label files and ranks.
    pub show_coords: bool,
    /// Whether to draw the board upside down, Black's side at the bottom.
    pub flip: bool,
    /// Whether to mark the side to move beside the board.
    pub show_indicator: bool,
    /// Whether to draw for print: white light squares, hatched dark ones.
    pub grayscale: bool,
}

/// Edge of the whole image: the board and a margin on each side.
pub open spec fn outer_size(b: &Board) -> int {
    8 * b.units + 2 * b.margin
}

/// Pixel column of the left edge of cell `k` (cells run rank 8 to rank 1,
/// file a to file h), on a board drawn upside down when `flip` holds.
pub open spec fn cell_x(b: &Board, k: int, flip: bool) -> int {
    let file = k % 8;
    if flip {
        b.margin + (7 - file) * b.units
    } else {
        b.margin + file * b.units
    }
}

/// Pixel row of the top edge of cell `k`.
pub open spec fn cell_y(b: &Board, k: int, flip: bool) -> int {
    let rank = k / 8;
    if flip {
        b.margin + (7 - rank) * b.units
    } else {
        b.margin + rank * b.units
    }
}

/// The point that a half turn of the board about its centre sends `p` to,
/// measured as square origins.
pub open spec fn mirror_point(b: &Board, p: (int, int)) -> (int, int) {
    (2 * b.margin + 7 * b.units - p.0, 2 * b.margin + 7 * b.units - p.1)
}

/// Turning the board twice restores every point, and a flipped board puts
/// each cell where a half turn sends its unflipped position.
pub proof fn lemma_flip_twice(b: &Board, p: (int, int), k: int)
    requires
        0 <= k < 64,
    ensures
        mirror_point(b, mirror_point(b, p)) == p,
        (cell_x(b, k, true), cell_y(b, k, true)) == mirror_point(
            b,
            (cell_x(b, k, false), cell_y(b, k, false)),
        ),
{
    assert((7 - k % 8) * b.units == 7 * b.units - (k % 8) * b.units) by (nonlinear_arith);
    assert((7 - k / 8) * b.units == 7 * b.units - (k / 8) * b.units) by (nonlinear_arith);
}

/// A product of a small factor and a board dimension.
pub(crate) fn scaled(f: u32, x: u32) -> (r: i64)
    requires
        f <= 16,
    ensures
        r == f * x,
        0 <= r <= 16 * 0xffff_ffff,
{
    assert(f * x <= 16 * 0xffff_ffff) by (nonlinear_arith)
        requires
            f <= 16,
            x <= 0xffff_ffff,
    ;
    (f as i64) * (x as i64)
}

impl Default for Board {
    /// The starting position, drawn 64 pixels a square with a 48 pixel margin,
    /// a border of 2, the merida pieces on brown squares, and no extras.
    fn default() -> (r: Board)
        ensures
            r.fen@ == "rnbqkbnr/pppppppp/8/8/8/8/PPPPPPPP/RNBQKBNR w KQkq - 0 1"@,
            r.units == 64,
            r.corner_radius == 0,
            r.margin == 48,
            r.border == 2,
            r.font@ == "sans-serif"@,
            r.font_size == 20,
            r.pieces@ == "merida"@,
            r.color_light@ == "a48c62"@,
            r.color_dark@ == "846c40"@,
            !r.show_coords,
            !r.flip,
            !r.show_indicator,
            !r.grayscale,
    {
        Board {
            fen: "rnbqkbnr/pppppppp/8/8/8/8/PPPPPPPP/RNBQKBNR w KQkq - 0 1".to_owned(),
            units: 64,
            corner_radius: 0,
            margin: 48,
            border: 2,
            font: "sans-serif".to_owned(),
            font_size: 20,
            pieces: "merida".to_owned(),
            color_light: "a48c62".to_owned(),
            color_dark: "846c40".to_owned(),
            show_coords: false,
            flip: false,
            show_indicator: false,
            grayscale: false,
        }
    }
}

impl Board {
    /// Edge of the whole image, in pixels, on both axes.
    pub fn outer_size(&self) -> (r: i64)
        ensures
            r == outer_size(self),
    {
        scaled(8, self.units) + scaled(2, self.margin)
    }

    /// Pixel origin of cell `k` as drawn: upside down when the board is flipped.
    pub fn square_origin(&self, k: usize) -> (r: (i64, i64))
        requires
            k < 64,
        ensures
            r.0 == cell_x(self, k as int, self.flip),
            r.1 == cell_y(self, k as int, self.flip),
            0 <= r.0,
            0 <= r.1,
    {
        let file = (k % 8) as u32;
        let rank = (k / 8) as u32;
        if self.flip {
            (
                self.margin as i64 + scaled(7 - file, self.units),
                self.margin as i64 + scaled(7 - rank, self.units),
            )
        } else {
            (self.margin as i64 + scaled(file, self.units), self.margin as i64 + scaled(rank, self.units))
        }
    }

    /// The point that a half turn of the board sends `p` to.
    pub fn mirror(&self, p: (i64, i64)) -> (r: (i64, i64))
        requires
            -0x1_0000_0000_0000 <= p.0 <= 0x1_0000_0000_0000,
            -0x1_0000_0000_0000 <= p.1 <= 0x1_0000_0000_0000,
        ensures
            (r.0 as int, r.1 as int) == mirror_point(self, (p.0 as int, p.1 as int)),
    {
        let c = scaled(2, self.margin) + scaled(7, self.units);
        (c - p.0, c - p.1)
    }

    /// The side to move, read from the character right after the first space
    /// of the FEN text; `None` when that is neither `w` nor `b`, or missing.
    pub fn side_to_move(&self) -> (r: Option<Side>)
        ensures
            r == side_of_fen(self.fen@),
    {
        side_from_fen(self.fen.as_str())
    }

    /// Whether White is to move.
    pub fn white_to_move(&self) -> (r: bool)
        ensures
            r == (side_of_fen(self.fen@) == Some(Side::White)),
    {
        self.side_to_move() == Some(Side::White)
    }

    /// Whether Black is to move.
    pub fn black_to_move(&self) -> (r: bool)
        ensures
            r == (side_of_fen(self.fen@) == Some(Side::Black)),
    {
        self.side_to_move() == Some(Side::Black)
    }
}

} // verus!

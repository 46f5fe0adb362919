use vstd::prelude::*;

use crate::board::{Board, cell_x, cell_y, outer_size, scaled};
use crate::position::{
    FenError,
    Kind,
    Piece,
    Position,
    Side,
    cursor_at,
    decode,
    first_space,
    fits,
    piece_of_char,
    lemma_decode_length,
    lemma_letter_lands,
    lemma_one_piece_per_letter,
    letter_count,
    occupied,
    side_of_fen,
};
use crate::text::{int_text, push_int};

verus! {

/// The text of the image header written after `p`: the root element, sized
/// `outer_size` on both axes, and comments naming the theme and the position.
pub open spec fn header_out(p: Seq<char>, b: &Board) -> Seq<char> {
    p + "<?xml version='1.0' encoding='utf-8'?>\n<svg viewBox='0 0 "@ + int_text(outer_size(b))
        + " "@ + int_text(outer_size(b))
        + "' style='background-color:#ffffff00' version='1.1' xmlns='http://www.w3.org/2000/svg' xmlns:xlink='http://www.w3.org/1999/xlink' xml:space='preserve' x='0px' y='0px' width='"@
        + int_text(outer_size(b)) + "' height='"@ + int_text(outer_size(b))
        + "'>\n<!-- Theme: "@ + b.pieces@ + " -->\n<!-- FEN: "@ + b.fen@ + " -->\n"@
}

/// Fill color of the light squares: white in grayscale mode, else the
/// configured light color.
pub open spec fn light_fill(b: &Board) -> Seq<char> {
    if b.grayscale {
        "fff"@
    } else {
        b.color_light@
    }
}

/// The dark background written after `p`: a cross-hatch pattern with a pitch
/// of a twelfth of a square in grayscale mode, else a flat dark rectangle.
pub open spec fn dark_out(p: Seq<char>, b: &Board) -> Seq<char> {
    if b.grayscale {
        p + "<!-- DARK SQUARES -->\n<pattern id='crosshatch' width='"@
            + int_text(b.units as int / 12) + "' height='"@ + int_text(b.units as int / 12)
            + "' patternTransform='rotate(45 0 0)' patternUnits='userSpaceOnUse'>\n<line x1='0' y1='0' x2='0' y2='"@
            + int_text(b.units as int / 12)
            + "' style='stroke:#000; stroke-width:1' />\n</pattern>\n<rect x='"@
            + int_text(b.margin as int) + "' y='"@ + int_text(b.margin as int) + "' width='"@
            + int_text(8 * b.units) + "' height='"@ + int_text(8 * b.units)
            + "' fill='url(#crosshatch)' />\n"@
    } else {
        p + "<!-- DARK SQUARES -->\n<rect x='"@ + int_text(b.margin as int) + "' y='"@
            + int_text(b.margin as int) + "' width='"@ + int_text(8 * b.units) + "' height='"@
            + int_text(8 * b.units) + "' fill='#"@ + b.color_dark@ + "' />\n"@
    }
}

/// The squares written after `p`: the dark background, then the light squares
/// as a checkerboard pattern of period two squares.
pub open spec fn squares_out(p: Seq<char>, b: &Board) -> Seq<char> {
    dark_out(p, b) + "<!-- LIGHT SQUARES -->\n<pattern id='checkerboard' x='"@
        + int_text(b.margin as int) + "' y='"@ + int_text(b.margin as int) + "' width='"@
        + int_text(2 * b.units) + "' height='"@ + int_text(2 * b.units)
        + "' patternUnits='userSpaceOnUse'>\n  <rect x='0' y='0' width='"@
        + int_text(b.units as int) + "' height='"@ + int_text(b.units as int)
        + "' style='fill:#"@ + light_fill(b) + ";' />\n  <rect x='"@ + int_text(b.units as int)
        + "' y='"@ + int_text(b.units as int) + "' width='"@ + int_text(b.units as int)
        + "' height='"@ + int_text(b.units as int) + "' style='fill:#"@ + light_fill(b)
        + ";' />\n</pattern>\n<rect x='"@ + int_text(b.margin as int) + "' y='"@
        + int_text(b.margin as int) + "' width='"@ + int_text(8 * b.units) + "' height='"@
        + int_text(8 * b.units) + "' fill='url(#checkerboard)' />\n"@
}

/// Offset of the outer border rectangle: a border of width 1 sits wholly
/// outside the board, a wider one is centred on its edge (an odd width
/// rounded down to an even one, so that the rectangle stays concentric).
pub open spec fn border_inset(b: &Board) -> int {
    if b.border == 1 {
        b.margin - 1
    } else {
        b.margin - b.border as int / 2
    }
}

/// Edge of the outer border rectangle.
pub open spec fn border_span(b: &Board) -> int {
    if b.border == 1 {
        8 * b.units + 2
    } else {
        8 * b.units + 2 * (b.border as int / 2)
    }
}

/// The outer border rectangle is concentric with the board, for every width.
pub proof fn lemma_border_concentric(b: &Board)
    ensures
        2 * border_inset(b) + border_span(b) == 2 * b.margin + 8 * b.units,
{
}

/// The border written after `p`: a gap rectangle of no width on the board's
/// edge, then the outer rectangle of stroke width `border`.
pub open spec fn border_out(p: Seq<char>, b: &Board) -> Seq<char> {
    p + "<!-- BORDER -->\n<rect x='"@ + int_text(b.margin as int) + "' y='"@
        + int_text(b.margin as int) + "' width='"@ + int_text(8 * b.units) + "' height='"@
        + int_text(8 * b.units)
        + "' fill='none' stroke-width='0' stroke-location='outside' stroke='#fff' rx='"@
        + int_text(b.corner_radius as int) + "' ry='"@ + int_text(b.corner_radius as int)
        + "' />\n<rect x='"@ + int_text(border_inset(b)) + "' y='"@ + int_text(border_inset(b))
        + "' width='"@ + int_text(border_span(b)) + "' height='"@ + int_text(border_span(b))
        + "' fill='none' stroke-width='"@ + int_text(b.border as int)
        + "' stroke-location='outside' stroke='#000' rx='"@ + int_text(b.corner_radius as int)
        + "' ry='"@ + int_text(b.corner_radius as int) + "' />\n"@
}

/// Grayscale mode ignores the configured colors: two boards that differ only
/// in their colors draw the same squares, with white light squares.
pub proof fn lemma_grayscale_ignores_colors(p: Seq<char>, b: &Board, c: &Board)
    requires
        b.grayscale,
        c.grayscale,
        b.units == c.units,
        b.margin == c.margin,
    ensures
        squares_out(p, b) == squares_out(p, c),
        light_fill(b) == "fff"@,
{
}

impl Board {
    /// Writes the header: the root element and the comments.
    pub fn put_svg_header(&self, out: &mut String)
        ensures
            final(out)@ == header_out(old(out)@, self),
    {
        let n = self.outer_size();
        out.append("<?xml version='1.0' encoding='utf-8'?>\n<svg viewBox='0 0 ");
        push_int(out, n);
        out.append(" ");
        push_int(out, n);
        out.append("' style='background-color:#ffffff00' version='1.1' xmlns='http://www.w3.org/2000/svg' xmlns:xlink='http://www.w3.org/1999/xlink' xml:space='preserve' x='0px' y='0px' width='");
        push_int(out, n);
        out.append("' height='");
        push_int(out, n);
        out.append("'>\n<!-- Theme: ");
        out.append(self.pieces.as_str());
        out.append(" -->\n<!-- FEN: ");
        out.append(self.fen.as_str());
        out.append(" -->\n");
    }

    /// Writes the dark background and the light squares.
    pub fn put_squares(&self, out: &mut String)
        ensures
            final(out)@ == squares_out(old(out)@, self),
    {
        let u: i64 = self.units as i64;
        let m: i64 = self.margin as i64;
        let w: i64 = 8 * u;
        let light: &str;
        if self.grayscale {
            let d: i64 = u / 12;
            out.append("<!-- DARK SQUARES -->\n<pattern id='crosshatch' width='");
            push_int(out, d);
            out.append("' height='");
            push_int(out, d);
            out.append("' patternTransform='rotate(45 0 0)' patternUnits='userSpaceOnUse'>\n<line x1='0' y1='0' x2='0' y2='");
            push_int(out, d);
            out.append("' style='stroke:#000; stroke-width:1' />\n</pattern>\n<rect x='");
            push_int(out, m);
            out.append("' y='");
            push_int(out, m);
            out.append("' width='");
            push_int(out, w);
            out.append("' height='");
            push_int(out, w);
            out.append("' fill='url(#crosshatch)' />\n");
            light = "fff";
        } else {
            out.append("<!-- DARK SQUARES -->\n<rect x='");
            push_int(out, m);
            out.append("' y='");
            push_int(out, m);
            out.append("' width='");
            push_int(out, w);
            out.append("' height='");
            push_int(out, w);
            out.append("' fill='#");
            out.append(self.color_dark.as_str());
            out.append("' />\n");
            light = self.color_light.as_str();
        }
        out.append("<!-- LIGHT SQUARES -->\n<pattern id='checkerboard' x='");
        push_int(out, m);
        out.append("' y='");
        push_int(out, m);
        out.append("' width='");
        push_int(out, 2 * u);
        out.append("' height='");
        push_int(out, 2 * u);
        out.append("' patternUnits='userSpaceOnUse'>\n  <rect x='0' y='0' width='");
        push_int(out, u);
        out.append("' height='");
        push_int(out, u);
        out.append("' style='fill:#");
        out.append(light);
        out.append(";' />\n  <rect x='");
        push_int(out, u);
        out.append("' y='");
        push_int(out, u);
        out.append("' width='");
        push_int(out, u);
        out.append("' height='");
        push_int(out, u);
        out.append("' style='fill:#");
        out.append(light);
        out.append(";' />\n</pattern>\n<rect x='");
        push_int(out, m);
        out.append("' y='");
        push_int(out, m);
        out.append("' width='");
        push_int(out, w);
        out.append("' height='");
        push_int(out, w);
        out.append("' fill='url(#checkerboard)' />\n");
    }

    /// Writes the two border rectangles.
    pub fn put_border(&self, out: &mut String)
        ensures
            final(out)@ == border_out(old(out)@, self),
    {
        let u: i64 = self.units as i64;
        let m: i64 = self.margin as i64;
        let w: i64 = 8 * u;
        let r: i64 = self.corner_radius as i64;
        let n: i64;
        let outer: i64;
        if self.border == 1 {
            n = m - 1;
            outer = w + 2;
        } else {
            n = m - self.border as i64 / 2;
            outer = w + 2 * (self.border as i64 / 2);
        }
        out.append("<!-- BORDER -->\n<rect x='");
        push_int(out, m);
        out.append("' y='");
        push_int(out, m);
        out.append("' width='");
        push_int(out, w);
        out.append("' height='");
        push_int(out, w);
        out.append("' fill='none' stroke-width='0' stroke-location='outside' stroke='#fff' rx='");
        push_int(out, r);
        out.append("' ry='");
        push_int(out, r);
        out.append("' />\n<rect x='");
        push_int(out, n);
        out.append("' y='");
        push_int(out, n);
        out.append("' width='");
        push_int(out, outer);
        out.append("' height='");
        push_int(out, outer);
        out.append("' fill='none' stroke-width='");
        push_int(out, self.border as i64);
        out.append("' stroke-location='outside' stroke='#000' rx='");
        push_int(out, r);
        out.append("' ry='");
        push_int(out, r);
        out.append("' />\n");
    }
}

/// Pixel column of the label of the `k`-th file column from the left.
pub open spec fn file_label_x(b: &Board, k: int) -> int {
    b.margin + b.units as int / 2 - b.font_size as int / 4 + k * b.units
}

/// Pixel row of the file labels, below the board.
pub open spec fn file_label_y(b: &Board) -> int {
    b.margin + 8 * b.units + b.border + b.font_size
}

/// Pixel column of the rank labels, left of the board.
pub open spec fn rank_label_x(b: &Board) -> int {
    b.margin as int - b.font_size as int - b.border as int
}

/// Pixel row of the label of the `k`-th rank row from the top.
pub open spec fn rank_label_y(b: &Board, k: int) -> int {
    k * b.units + b.margin + b.units as int / 2 + b.font_size as int / 2
}

/// The letter of file `i`, from `a` for 0 to `h` for 7.
pub open spec fn file_letter(i: int) -> Seq<char> {
    if i == 0 {
        "a"@
    } else if i == 1 {
        "b"@
    } else if i == 2 {
        "c"@
    } else if i == 3 {
        "d"@
    } else if i == 4 {
        "e"@
    } else if i == 5 {
        "f"@
    } else if i == 6 {
        "g"@
    } else {
        "h"@
    }
}

/// The opening of the coordinate labels written after `p`: a group and its
/// font style.
pub open spec fn coords_head(p: Seq<char>, b: &Board) -> Seq<char> {
    p + "<svg>\n<style> .small { font: normal "@ + int_text(b.font_size as int) + "px "@
        + b.font@ + "; } </style>\n"@
}

/// The label of the `k`-th file column written after `p`; the letters run
/// from `h` when the board is flipped.
pub open spec fn file_label_out(p: Seq<char>, b: &Board, k: int) -> Seq<char> {
    p + "<text x=\""@ + int_text(file_label_x(b, k)) + "\" y=\""@ + int_text(file_label_y(b))
        + "\" fill=\"#000\" class=\"small\">"@ + file_letter(if b.flip { 7 - k } else { k })
        + "</text>\n"@
}

/// The labels of the first `n` file columns written after `p`.
pub open spec fn files_out(p: Seq<char>, b: &Board, n: nat) -> Seq<char>
    decreases n,
{
    if n == 0 {
        p
    } else {
        file_label_out(files_out(p, b, (n - 1) as nat), b, n - 1)
    }
}

/// The label of the `k`-th rank row written after `p`: 8 down to 1, or 1 up
/// to 8 when the board is flipped.
pub open spec fn rank_label_out(p: Seq<char>, b: &Board, k: int) -> Seq<char> {
    p + "<text x=\""@ + int_text(rank_label_x(b)) + "\" y=\""@ + int_text(rank_label_y(b, k))
        + "\" fill=\"#000\" class=\"small\">"@ + int_text(if b.flip { k + 1 } else { 8 - k })
        + "</text>\n"@
}

/// The labels of the first `n` rank rows written after `p`.
pub open spec fn ranks_out(p: Seq<char>, b: &Board, n: nat) -> Seq<char>
    decreases n,
{
    if n == 0 {
        p
    } else {
        rank_label_out(ranks_out(p, b, (n - 1) as nat), b, n - 1)
    }
}

/// The coordinate labels written after `p`.
pub open spec fn coords_out(p: Seq<char>, b: &Board) -> Seq<char> {
    ranks_out(files_out(coords_head(p, b), b, 8), b, 8) + "</svg>\n"@
}

fn file_letter_str(i: usize) -> (r: &'static str)
    requires
        i < 8,
    ensures
        r@ == file_letter(i as int),
{
    match i {
        0 => "a",
        1 => "b",
        2 => "c",
        3 => "d",
        4 => "e",
        5 => "f",
        6 => "g",
        _ => "h",
    }
}

/// Position of a piece among the twelve: White's first, pawn to king.
pub open spec fn piece_index(p: Piece) -> int {
    (if p.color == Side::White {
        0int
    } else {
        6int
    }) + match p.kind {
        Kind::Pawn => 0int,
        Kind::Knight => 1int,
        Kind::Bishop => 2int,
        Kind::Rook => 3int,
        Kind::Queen => 4int,
        Kind::King => 5int,
    }
}

fn piece_slot(p: Piece) -> (r: usize)
    ensures
        r == piece_index(p),
        r < 12,
{
    let base: usize = match p.color {
        Side::White => 0,
        Side::Black => 6,
    };
    base + match p.kind {
        Kind::Pawn => 0,
        Kind::Knight => 1,
        Kind::Bishop => 2,
        Kind::Rook => 3,
        Kind::Queen => 4,
        Kind::King => 5,
    }
}

/// The glyph that a set holds for a piece, if any.
pub open spec fn glyph_of(g: Seq<Option<Seq<char>>>, p: Piece) -> Option<Seq<char>> {
    if 0 <= piece_index(p) < g.len() {
        g[piece_index(p)]
    } else {
        None
    }
}

/// The glyph texts (SVG fragments) of the pieces, one slot for each of the
/// twelve; an empty slot is a glyph that could not be had.
pub struct GlyphSet {
    glyphs: Vec<Option<String>>,
}

impl View for GlyphSet {
    type V = Seq<Option<Seq<char>>>;

    closed spec fn view(&self) -> Seq<Option<Seq<char>>> {
        self.glyphs@.map_values(
            |g: Option<String>|
                match g {
                    Some(t) => Some(t@),
                    None => None,
                },
        )
    }
}

impl GlyphSet {
    /// A set with no glyph.
    pub fn new() -> (r: GlyphSet)
        ensures
            r@ == Seq::new(12, |i: int| None::<Seq<char>>),
    {
        let mut glyphs: Vec<Option<String>> = Vec::new();
        while glyphs.len() < 12
            invariant
                glyphs@.len() <= 12,
                forall|k: int| 0 <= k < glyphs@.len() ==> glyphs@[k] is None,
            decreases 12 - glyphs.len(),
        {
            glyphs.push(None);
        }
        let r = GlyphSet { glyphs };
        assert(r@ =~= Seq::new(12, |i: int| None::<Seq<char>>));
        r
    }

    /// Records the glyph of a piece.
    pub fn set(&mut self, p: Piece, text: String)
        ensures
            final(self)@ == (if piece_index(p) < old(self)@.len() {
                old(self)@.update(piece_index(p), Some(text@))
            } else {
                old(self)@
            }),
    {
        let slot = piece_slot(p);
        if slot < self.glyphs.len() {
            let ghost t = text@;
            self.glyphs.set(slot, Some(text));
            assert(self@ =~= old(self)@.update(piece_index(p), Some(t)));
        }
    }

    /// The glyph of a piece, if the set holds one.
    pub fn glyph(&self, p: Piece) -> (r: Option<&String>)
        ensures
            r matches Some(t) ==> glyph_of(self@, p) == Some(t@),
            r is None ==> glyph_of(self@, p) is None,
    {
        let slot = piece_slot(p);
        if slot < self.glyphs.len() {
            match &self.glyphs[slot] {
                Some(t) => Some(t),
                None => None,
            }
        } else {
            None
        }
    }
}

/// The color letter of an asset file name.
pub open spec fn color_letter(c: Side) -> Seq<char> {
    match c {
        Side::White => "w"@,
        Side::Black => "b"@,
    }
}

/// The upper-case piece letter of an asset file name.
pub open spec fn kind_letter(k: Kind) -> Seq<char> {
    match k {
        Kind::Pawn => "P"@,
        Kind::Knight => "N"@,
        Kind::Bishop => "B"@,
        Kind::Rook => "R"@,
        Kind::Queen => "Q"@,
        Kind::King => "K"@,
    }
}

fn color_str(c: Side) -> (r: &'static str)
    ensures
        r@ == color_letter(c),
{
    match c {
        Side::White => "w",
        Side::Black => "b",
    }
}

fn kind_str(k: Kind) -> (r: &'static str)
    ensures
        r@ == kind_letter(k),
{
    match k {
        Kind::Pawn => "P",
        Kind::Knight => "N",
        Kind::Bishop => "B",
        Kind::Rook => "R",
        Kind::Queen => "Q",
        Kind::King => "K",
    }
}

/// Path of the glyph asset of a piece in a theme: `svg/<theme>/<w|b><letter>.svg`.
pub open spec fn asset_path_of(theme: Seq<char>, p: Piece) -> Seq<char> {
    Seq::empty() + "svg/"@ + theme + "/"@ + color_letter(p.color) + kind_letter(p.kind)
        + ".svg"@
}

/// Path of the glyph asset of a piece in a theme.
pub fn asset_path(theme: &str, p: Piece) -> (r: String)
    ensures
        r@ == asset_path_of(theme@, p),
{
    let mut r = String::new();
    r.append("svg/");
    r.append(theme);
    r.append("/");
    r.append(color_str(p.color));
    r.append(kind_str(p.kind));
    r.append(".svg");
    r
}

/// A glyph written after `p`, in a square sub-viewport at `(x, y)`.
pub open spec fn piece_out(p: Seq<char>, b: &Board, x: int, y: int, glyph: Seq<char>) -> Seq<char> {
    p + "<svg x='"@ + int_text(x) + "' y='"@ + int_text(y) + "' width='"@
        + int_text(b.units as int) + "' height='"@ + int_text(b.units as int) + "'>\n"@ + glyph
        + "</svg>\n"@
}

/// The pieces of the first `n` cells written after `p`, each occupied cell
/// as its glyph at the cell's origin.
pub open spec fn pieces_out(
    p: Seq<char>,
    b: &Board,
    cells: Seq<Option<Piece>>,
    g: Seq<Option<Seq<char>>>,
    n: nat,
) -> Seq<char>
    decreases n,
{
    if n == 0 {
        p + "<!-- PIECES -->\n"@
    } else {
        let q = pieces_out(p, b, cells, g, (n - 1) as nat);
        let k = n - 1;
        if cells[k] is Some {
            piece_out(
                q,
                b,
                cell_x(b, k, b.flip),
                cell_y(b, k, b.flip),
                glyph_of(g, cells[k]->0)->0,
            )
        } else {
            q
        }
    }
}

/// The number of glyphs that `pieces_out` draws for the first `n` cells.
pub open spec fn glyphs_drawn(cells: Seq<Option<Piece>>, n: nat) -> nat
    decreases n,
{
    if n == 0 {
        0
    } else {
        glyphs_drawn(cells, (n - 1) as nat) + (if cells[n - 1] is Some {
            1nat
        } else {
            0nat
        })
    }
}

proof fn lemma_drawn_is_occupied(cells: Seq<Option<Piece>>, n: nat)
    requires
        n <= cells.len(),
    ensures
        glyphs_drawn(cells, n) == occupied(cells.take(n as int)),
    decreases n,
{
    if n > 0 {
        lemma_drawn_is_occupied(cells, (n - 1) as nat);
        assert(cells.take(n as int).drop_last() =~= cells.take(n - 1));
    }
}

/// A drawn board holds one glyph for each letter of the FEN placement field,
/// when every letter lands on the board.
pub proof fn lemma_glyph_per_letter(fen: Seq<char>)
    requires
        decode(fen) is Ok,
        fits(fen),
    ensures
        glyphs_drawn(decode(fen)->Ok_0, 64) == letter_count(fen),
{
    let cells = decode(fen)->Ok_0;
    lemma_decode_length(fen);
    lemma_one_piece_per_letter(fen);
    lemma_drawn_is_occupied(cells, 64);
    assert(cells.take(64) =~= cells);
}

/// Where each piece letter of an accepted placement field that fits on the
/// board is drawn: with `r` the number of ranks before it and `f` the cells
/// before it in its rank, its cell holds its piece, and that cell's glyph
/// goes at column `margin + f * units` and row `margin + r * units`, or at
/// `7 - f` and `7 - r` squares on a flipped board.
pub proof fn lemma_letter_pixel(b: &Board, fen: Seq<char>, i: int)
    requires
        decode(fen) is Ok,
        fits(fen),
        0 <= i < first_space(fen, 0),
        piece_of_char(fen[i]) is Some,
    ensures
        ({
            let r = cursor_at(fen, i).0;
            let f = cursor_at(fen, i).1;
            let k = 8 * r + f;
            &&& 0 <= k < 64
            &&& decode(fen)->Ok_0[k] == piece_of_char(fen[i])
            &&& cell_x(b, k, b.flip) == b.margin + (if b.flip {
                7 - f
            } else {
                f
            }) * b.units
            &&& cell_y(b, k, b.flip) == b.margin + (if b.flip {
                7 - r
            } else {
                r
            }) * b.units
        }),
{
    lemma_letter_lands(fen, i);
    let r = cursor_at(fen, i).0;
    let f = cursor_at(fen, i).1;
    assert((8 * r + f) % 8 == f && (8 * r + f) / 8 == r) by (nonlinear_arith)
        requires
            0 <= r < 8,
            0 <= f < 8,
    ;
}

/// The first cell from `i` on whose piece has no glyph, or 64 if none.
pub open spec fn first_missing(cells: Seq<Option<Piece>>, g: Seq<Option<Seq<char>>>, i: int) -> int
    decreases 64 - i,
{
    if i < 0 || i >= 64 {
        64
    } else if cells[i] is Some && glyph_of(g, cells[i]->0) is None {
        i
    } else {
        first_missing(cells, g, i + 1)
    }
}

/// Column of the turn indicator, right of the board.
pub open spec fn ind_cx(b: &Board) -> int {
    8 * b.units + 3 * b.margin as int / 2
}

/// Half width of the turn indicator.
pub open spec fn ind_d(b: &Board) -> int {
    b.units as int / 5
}

/// Whether the turn indicator stands beside the bottom rank row: White to
/// move on an upright board, or Black to move on a flipped one.
pub open spec fn ind_bottom(b: &Board) -> bool {
    (side_of_fen(b.fen@) == Some(Side::White) && !b.flip) || (side_of_fen(b.fen@) == Some(
        Side::Black,
    ) && b.flip)
}

/// Row of the turn indicator's centre.
pub open spec fn ind_cy(b: &Board) -> int {
    b.margin + b.units as int / 2 + (if ind_bottom(b) {
        7 * b.units
    } else {
        0
    })
}

/// Vertical half extent of the turn indicator, pointing away from the board's edge.
pub open spec fn ind_dy(b: &Board) -> int {
    if ind_bottom(b) {
        -ind_d(b)
    } else {
        ind_d(b)
    }
}

/// The turn indicator written after `p`: a triangle beside the side to move,
/// white with a thicker outline for White, black for Black; nothing when the
/// side to move is unknown.
pub open spec fn indicator_out(p: Seq<char>, b: &Board) -> Seq<char> {
    match side_of_fen(b.fen@) {
        None => p,
        Some(s) => {
            let white = s == Side::White;
            triangle_out(
                p,
                ind_cx(b),
                ind_cy(b),
                ind_d(b),
                ind_dy(b),
                if white {
                    2
                } else {
                    1
                },
                if white {
                    "fff"@
                } else {
                    "000"@
                },
            )
        },
    }
}

/// A triangle written after `p`: centred on `(cx, cy)`, `2 dx` wide, its
/// apex `dy` past the centre, with a curved back.
pub open spec fn triangle_out(
    p: Seq<char>,
    cx: int,
    cy: int,
    dx: int,
    dy: int,
    stroke: int,
    fill: Seq<char>,
) -> Seq<char> {
    p + "<path d='M"@ + int_text(cx - dx) + " "@ + int_text(cy - dy) + " l"@ + int_text(dx) + " "@
        + int_text(2 * dy) + " l"@ + int_text(dx) + " "@ + int_text(-2 * dy) + " q"@ + int_text(
        -dx,
    ) + " "@ + int_text(dy) + " "@ + int_text(-2 * dx) + " 0' stroke='black' stroke-width='"@
        + int_text(stroke) + "' fill='#"@ + fill + "' />\n"@
}

/// Writes a triangle: see `triangle_out`.
fn put_triangle(out: &mut String, cx: i64, cy: i64, dx: i64, dy: i64, stroke: i64, fill: &str)
    requires
        0 <= cx <= 0x10_0000_0000,
        0 <= cy <= 0x10_0000_0000,
        0 <= dx <= 0x1_0000_0000,
        -0x1_0000_0000 <= dy <= 0x1_0000_0000,
        0 <= stroke <= 2,
    ensures
        final(out)@ == triangle_out(old(out)@, cx as int, cy as int, dx as int, dy as int, stroke as int, fill@),
{
    out.append("<path d='M");
    push_int(out, cx - dx);
    out.append(" ");
    push_int(out, cy - dy);
    out.append(" l");
    push_int(out, dx);
    out.append(" ");
    push_int(out, 2 * dy);
    out.append(" l");
    push_int(out, dx);
    out.append(" ");
    push_int(out, 0 - 2 * dy);
    out.append(" q");
    push_int(out, -dx);
    out.append(" ");
    push_int(out, dy);
    out.append(" ");
    push_int(out, -2 * dx);
    out.append(" 0' stroke='black' stroke-width='");
    push_int(out, stroke);
    out.append("' fill='#");
    out.append(fill);
    out.append("' />\n");
}

/// Everything that precedes the pieces: header, squares, border and, when
/// shown, the coordinate labels.
pub open spec fn before_pieces(b: &Board) -> Seq<char> {
    let q = border_out(squares_out(header_out(Seq::empty(), b), b), b);
    if b.show_coords {
        coords_out(q, b)
    } else {
        q
    }
}

/// The whole document for a board whose cells are `cells` and whose glyphs are `g`.
pub open spec fn document(b: &Board, cells: Seq<Option<Piece>>, g: Seq<Option<Seq<char>>>) -> Seq<
    char,
> {
    let q = pieces_out(before_pieces(b), b, cells, g, 64);
    let r = if b.show_indicator {
        indicator_out(q, b)
    } else {
        q
    };
    r + "</svg>\n"@
}

/// Why a board could not be drawn.
#[derive(Debug)]
pub enum RenderError {
    /// The placement field is malformed at this character index.
    MalformedFen(usize),
    /// No glyph for a piece on the board: the asset path it would come from,
    /// and the document as written up to that piece.
    AssetNotFound { path: String, partial: String },
}

impl Board {
    /// Writes the coordinate labels: file letters below the board and rank
    /// numbers left of it, both reversed on a flipped board.
    pub fn put_coords(&self, out: &mut String)
        ensures
            final(out)@ == coords_out(old(out)@, self),
    {
        out.append("<svg>\n<style> .small { font: normal ");
        push_int(out, self.font_size as i64);
        out.append("px ");
        out.append(self.font.as_str());
        out.append("; } </style>\n");
        let ghost start = out@;
        let u: i64 = self.units as i64;
        let m: i64 = self.margin as i64;
        let fs: i64 = self.font_size as i64;
        let bw: i64 = self.border as i64;
        let mut k: usize = 0;
        while k < 8
            invariant
                k <= 8,
                out@ == files_out(start, self, k as nat),
                u == self.units,
                m == self.margin,
                fs == self.font_size,
                bw == self.border,
            decreases 8 - k,
        {
            let i: usize = if self.flip {
                7 - k
            } else {
                k
            };
            let x: i64 = m + u / 2 - fs / 4 + scaled(k as u32, self.units);
            let y: i64 = m + 8 * u + bw + fs;
            out.append("<text x=\"");
            push_int(out, x);
            out.append("\" y=\"");
            push_int(out, y);
            out.append("\" fill=\"#000\" class=\"small\">");
            out.append(file_letter_str(i));
            out.append("</text>\n");
            k = k + 1;
        }
        let ghost files = out@;
        k = 0;
        while k < 8
            invariant
                k <= 8,
                out@ == ranks_out(files, self, k as nat),
                u == self.units,
                m == self.margin,
                fs == self.font_size,
                bw == self.border,
            decreases 8 - k,
        {
            let x: i64 = m - fs - bw;
            let y: i64 = scaled(k as u32, self.units) + m + u / 2 + fs / 2;
            let label: i64 = if self.flip {
                k as i64 + 1
            } else {
                8 - k as i64
            };
            out.append("<text x=\"");
            push_int(out, x);
            out.append("\" y=\"");
            push_int(out, y);
            out.append("\" fill=\"#000\" class=\"small\">");
            push_int(out, label);
            out.append("</text>\n");
            k = k + 1;
        }
        out.append("</svg>\n");
    }

    /// Writes one glyph in a square sub-viewport at `(x, y)`.
    pub fn put_piece(&self, out: &mut String, x: i64, y: i64, glyph: &str)
        requires
            x > i64::MIN,
            y > i64::MIN,
        ensures
            final(out)@ == piece_out(old(out)@, self, x as int, y as int, glyph@),
    {
        let u: i64 = self.units as i64;
        out.append("<svg x='");
        push_int(out, x);
        out.append("' y='");
        push_int(out, y);
        out.append("' width='");
        push_int(out, u);
        out.append("' height='");
        push_int(out, u);
        out.append("'>\n");
        out.append(glyph);
        out.append("</svg>\n");
    }

    /// Writes the turn indicator, if the side to move is known.
    pub fn put_move_indicator(&self, out: &mut String)
        ensures
            final(out)@ == indicator_out(old(out)@, self),
    {
        match self.side_to_move() {
            None => {},
            Some(s) => {
                let white = s == Side::White;
                let bottom = (white && !self.flip) || (!white && self.flip);
                let u: i64 = self.units as i64;
                let m: i64 = self.margin as i64;
                let cx: i64 = 8 * u + 3 * m / 2;
                let dx: i64 = u / 5;
                let cy: i64 = if bottom {
                    m + u / 2 + 7 * u
                } else {
                    m + u / 2
                };
                let dy: i64 = if bottom {
                    -dx
                } else {
                    dx
                };
                let stroke: i64 = if white {
                    2
                } else {
                    1
                };
                let fill = if white {
                    "fff"
                } else {
                    "000"
                };
                put_triangle(out, cx, cy, dx, dy, stroke, fill);
            },
        }
    }

    /// Draws the board: decodes the FEN text, then writes header, squares,
    /// border, coordinates if shown, the pieces in cell order, the turn
    /// indicator if shown, and the closing tag. A malformed FEN text fails
    /// before anything is written; a piece without a glyph stops the drawing
    /// and hands back what was written before it.
    pub fn build_board(&self, glyphs: &GlyphSet) -> (r: Result<String, RenderError>)
        ensures
            decode(self.fen@) is Err ==> r == Err::<String, RenderError>(
                RenderError::MalformedFen(decode(self.fen@)->Err_0 as usize),
            ),
            decode(self.fen@) is Ok && first_missing(decode(self.fen@)->Ok_0, glyphs@, 0) == 64
                ==> r is Ok && r->Ok_0@ == document(self, decode(self.fen@)->Ok_0, glyphs@),
            decode(self.fen@) is Ok && first_missing(decode(self.fen@)->Ok_0, glyphs@, 0) < 64
                ==> ({
                let cells = decode(self.fen@)->Ok_0;
                let k = first_missing(cells, glyphs@, 0);
                r matches Err(RenderError::AssetNotFound { path, partial }) && path@
                    == asset_path_of(self.pieces@, cells[k]->0) && partial@ == pieces_out(
                    before_pieces(self),
                    self,
                    cells,
                    glyphs@,
                    k as nat,
                )
            }),
    {
        proof {
            lemma_decode_length(self.fen@);
        }
        let pos = match Position::parse(self.fen.as_str()) {
            Ok(p) => p,
            Err(FenError::MalformedFen(i)) => {
                return Err(RenderError::MalformedFen(i));
            },
        };
        let ghost cells = pos.placement@;
        let mut out = String::new();
        self.put_svg_header(&mut out);
        self.put_squares(&mut out);
        self.put_border(&mut out);
        if self.show_coords {
            self.put_coords(&mut out);
        }
        let ghost start = out@;
        assert(start == before_pieces(self));
        out.append("<!-- PIECES -->\n");
        let mut k: usize = 0;
        while k < 64
            invariant
                k <= 64,
                pos.placement@ == cells,
                cells.len() == 64,
                decode(self.fen@) is Ok,
                cells == decode(self.fen@)->Ok_0,
                start == before_pieces(self),
                out@ == pieces_out(start, self, cells, glyphs@, k as nat),
                first_missing(cells, glyphs@, 0) == first_missing(cells, glyphs@, k as int),
            decreases 64 - k,
        {
            match pos.placement[k] {
                Some(p) => match glyphs.glyph(p) {
                    Some(t) => {
                        let (x, y) = self.square_origin(k);
                        self.put_piece(&mut out, x, y, t.as_str());
                    },
                    None => {
                        let path = asset_path(self.pieces.as_str(), p);
                        return Err(RenderError::AssetNotFound { path, partial: out });
                    },
                },
                None => {},
            }
            k = k + 1;
        }
        if self.show_indicator {
            self.put_move_indicator(&mut out);
        }
        out.append("</svg>\n");
        Ok(out)
    }
}

} // verus!

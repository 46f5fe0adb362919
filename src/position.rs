use vstd::prelude::*;

verus! {

/// A side of the board: the color of a piece, or the side to move.
#[derive(PartialEq, Eq, Structural, Debug, Clone, Copy)]
pub enum Side {
    White,
    Black,
}

/// The kind of a chess piece.
#[derive(PartialEq, Eq, Structural, Debug, Clone, Copy)]
pub enum Kind {
    Pawn,
    Knight,
    Bishop,
    Rook,
    Queen,
    King,
}

/// A piece: its color and its kind.
#[derive(PartialEq, Eq, Structural, Debug, Clone, Copy)]
pub struct Piece {
    pub color: Side,
    pub kind: Kind,
}

/// Why a FEN record was refused: the index (in characters) of the offending
/// character of the placement field.
#[derive(PartialEq, Eq, Structural, Debug, Clone, Copy)]
pub enum FenError {
    MalformedFen(usize),
}

/// The number of cells on the board.
pub const CELLS: usize = 64;

/// The side named by the active-color character of a FEN record.
pub open spec fn side_of_char(c: char) -> Option<Side> {
    if c == 'w' {
        Some(Side::White)
    } else if c == 'b' {
        Some(Side::Black)
    } else {
        None
    }
}

/// The kind named by a lower-case piece letter.
pub open spec fn kind_of_lower(c: char) -> Option<Kind> {
    if c == 'p' {
        Some(Kind::Pawn)
    } else if c == 'n' {
        Some(Kind::Knight)
    } else if c == 'b' {
        Some(Kind::Bishop)
    } else if c == 'r' {
        Some(Kind::Rook)
    } else if c == 'q' {
        Some(Kind::Queen)
    } else if c == 'k' {
        Some(Kind::King)
    } else {
        None
    }
}

/// The kind named by an upper-case piece letter.
pub open spec fn kind_of_upper(c: char) -> Option<Kind> {
    if c == 'P' {
        Some(Kind::Pawn)
    } else if c == 'N' {
        Some(Kind::Knight)
    } else if c == 'B' {
        Some(Kind::Bishop)
    } else if c == 'R' {
        Some(Kind::Rook)
    } else if c == 'Q' {
        Some(Kind::Queen)
    } else if c == 'K' {
        Some(Kind::King)
    } else {
        None
    }
}

/// The piece that a FEN letter stands for: upper case is White, lower case Black.
pub open spec fn piece_of_char(c: char) -> Option<Piece> {
    if kind_of_upper(c) is Some {
        Some(Piece { color: Side::White, kind: kind_of_upper(c)->0 })
    } else if kind_of_lower(c) is Some {
        Some(Piece { color: Side::Black, kind: kind_of_lower(c)->0 })
    } else {
        None
    }
}

/// The run of empty cells that a FEN digit stands for (1 to 8).
pub open spec fn run_of_char(c: char) -> Option<int> {
    if c == '1' {
        Some(1)
    } else if c == '2' {
        Some(2)
    } else if c == '3' {
        Some(3)
    } else if c == '4' {
        Some(4)
    } else if c == '5' {
        Some(5)
    } else if c == '6' {
        Some(6)
    } else if c == '7' {
        Some(7)
    } else if c == '8' {
        Some(8)
    } else {
        None
    }
}

/// An ASCII letter.
pub open spec fn is_letter(c: char) -> bool {
    ('a' <= c && c <= 'z') || ('A' <= c && c <= 'Z')
}

/// The index of the first space of `s` at or after `i`, or `s.len()` if none.
pub open spec fn first_space(s: Seq<char>, i: int) -> int
    decreases s.len() - i,
{
    if i < 0 || i >= s.len() {
        s.len() as int
    } else if s[i] == ' ' {
        i
    } else {
        first_space(s, i + 1)
    }
}

/// The side to move of a FEN record: the character right after its first space.
pub open spec fn side_of_fen(s: Seq<char>) -> Option<Side> {
    let k = first_space(s, 0);
    if k + 1 < s.len() {
        side_of_char(s[k + 1])
    } else {
        None
    }
}

/// A board with no pieces.
pub open spec fn empty_cells() -> Seq<Option<Piece>> {
    Seq::new(CELLS as nat, |k: int| None)
}

/// The smaller of two integers.
pub open spec fn min_int(a: int, b: int) -> int {
    if a < b {
        a
    } else {
        b
    }
}

/// Decoding of the placement field from character `i` on, with the cells filled
/// so far and the cursor at `rank` (0 is rank 8) and `file` (0 is file a).
/// Decoding stops at the first space or at the end of the text. A character
/// that is no piece letter, digit 1 to 8, `/` or space is refused: the error
/// holds its index. Nothing else is an error: a piece that falls past file h
/// or below rank 1 is not placed (the cursor stops at file h's right edge and
/// below rank 1), and empty runs past file h have no effect.
pub open spec fn decode_from(
    s: Seq<char>,
    i: int,
    cells: Seq<Option<Piece>>,
    rank: int,
    file: int,
) -> Result<Seq<Option<Piece>>, int>
    decreases s.len() - i,
{
    if i < 0 || i >= s.len() || s[i] == ' ' {
        Ok(cells)
    } else if piece_of_char(s[i]) is Some {
        let placed = if rank < 8 && file < 8 {
            cells.update(8 * rank + file, piece_of_char(s[i]))
        } else {
            cells
        };
        decode_from(s, i + 1, placed, rank, min_int(file + 1, 8))
    } else if run_of_char(s[i]) is Some {
        decode_from(s, i + 1, cells, rank, min_int(file + run_of_char(s[i])->0, 8))
    } else if s[i] == '/' {
        decode_from(s, i + 1, cells, min_int(rank + 1, 8), 0)
    } else {
        Err(i)
    }
}

/// Whether every piece letter of the placement field from character `i` on,
/// with the cursor at `rank` and `file`, lands on one of the 64 cells.
pub open spec fn fits_from(s: Seq<char>, i: int, rank: int, file: int) -> bool
    decreases s.len() - i,
{
    if i < 0 || i >= s.len() || s[i] == ' ' {
        true
    } else if piece_of_char(s[i]) is Some {
        rank < 8 && file < 8 && fits_from(s, i + 1, rank, file + 1)
    } else if run_of_char(s[i]) is Some {
        fits_from(s, i + 1, rank, min_int(file + run_of_char(s[i])->0, 8))
    } else if s[i] == '/' {
        fits_from(s, i + 1, min_int(rank + 1, 8), 0)
    } else {
        true
    }
}

/// Whether every piece letter of a FEN record's placement field lands on the board.
pub open spec fn fits(s: Seq<char>) -> bool {
    fits_from(s, 0, 0, 0)
}

/// The 64 cells that a FEN record's placement field describes, rank 8 to rank 1,
/// file a to file h; or the index of the character that makes it malformed.
pub open spec fn decode(s: Seq<char>) -> Result<Seq<Option<Piece>>, int> {
    decode_from(s, 0, empty_cells(), 0, 0)
}

/// The number of letters in the placement field from character `i` on.
pub open spec fn letters_from(s: Seq<char>, i: int) -> nat
    decreases s.len() - i,
{
    if i < 0 || i >= s.len() || s[i] == ' ' {
        0
    } else {
        (if is_letter(s[i]) { 1nat } else { 0nat }) + letters_from(s, i + 1)
    }
}

/// The number of letters in the placement field of a FEN record.
pub open spec fn letter_count(s: Seq<char>) -> nat {
    letters_from(s, 0)
}

/// The number of occupied cells.
pub open spec fn occupied(cells: Seq<Option<Piece>>) -> nat
    decreases cells.len(),
{
    if cells.len() == 0 {
        0
    } else {
        occupied(cells.drop_last()) + (if cells.last() is Some { 1nat } else { 0nat })
    }
}

/// A decoded position: its cells and its side to move.
#[derive(Debug)]
pub struct Position {
    pub placement: Vec<Option<Piece>>,
    pub side: Option<Side>,
}

impl Position {
    pub open spec fn wf(&self) -> bool {
        self.placement@.len() == CELLS
    }

    /// Decodes a FEN record: the cells from its placement field, the side to
    /// move from its active-color field. Later fields are ignored.
    pub fn parse(fen: &str) -> (r: Result<Position, FenError>)
        ensures
            decode(fen@) is Ok <==> r is Ok,
            r is Ok ==> r->Ok_0.wf() && r->Ok_0.placement@ == decode(fen@)->Ok_0
                && r->Ok_0.side == side_of_fen(fen@),
            decode(fen@) is Err ==> r == Err::<Position, FenError>(
                FenError::MalformedFen(decode(fen@)->Err_0 as usize),
            ),
    {
        proof {
            lemma_decode_length(fen@);
        }
        let side = side_from_fen(fen);
        let n = fen.unicode_len();
        let mut cells: Vec<Option<Piece>> = Vec::new();
        while cells.len() < CELLS
            invariant
                cells@.len() <= CELLS,
                forall|k: int| 0 <= k < cells@.len() ==> cells@[k] is None,
            decreases CELLS - cells.len(),
        {
            cells.push(None);
        }
        assert(cells@ =~= empty_cells());
        let mut i: usize = 0;
        let mut rank: usize = 0;
        let mut file: usize = 0;
        while i < n
            invariant
                n == fen@.len(),
                side == side_of_fen(fen@),
                i <= n,
                rank <= 8,
                file <= 8,
                cells@.len() == CELLS,
                decode(fen@) == decode_from(fen@, i as int, cells@, rank as int, file as int),
            decreases n - i,
        {
            let c = fen.get_char(i);
            if c == ' ' {
                assert(decode_from(fen@, i as int, cells@, rank as int, file as int) == Ok::<
                    Seq<Option<Piece>>,
                    int,
                >(cells@));
                return Ok(Position { placement: cells, side });
            }
            match piece_from_char(c) {
                Some(p) => {
                    if rank < 8 && file < 8 {
                        cells.set(8 * rank + file, Some(p));
                    }
                    if file < 8 {
                        file = file + 1;
                    }
                },
                None => match run_from_char(c) {
                    Some(d) => {
                        file = if file + d < 8 {
                            file + d
                        } else {
                            8
                        };
                    },
                    None => {
                        if c == '/' {
                            if rank < 8 {
                                rank = rank + 1;
                            }
                            file = 0;
                        } else {
                            return Err(FenError::MalformedFen(i));
                        }
                    },
                },
            }
            i = i + 1;
        }
        Ok(Position { placement: cells, side })
    }
}

/// The side to move of a FEN record, if its active-color field names one.
pub fn side_from_fen(fen: &str) -> (r: Option<Side>)
    ensures
        r == side_of_fen(fen@),
{
    let n = fen.unicode_len();
    let mut i: usize = 0;
    while i < n
        invariant
            n == fen@.len(),
            i <= n,
            first_space(fen@, 0) == first_space(fen@, i as int),
        decreases n - i,
    {
        if fen.get_char(i) == ' ' {
            if i + 1 < n {
                return side_from_char(fen.get_char(i + 1));
            } else {
                return None;
            }
        }
        i = i + 1;
    }
    None
}

/// The side named by an active-color character.
pub fn side_from_char(c: char) -> (r: Option<Side>)
    ensures
        r == side_of_char(c),
{
    if c == 'w' {
        Some(Side::White)
    } else if c == 'b' {
        Some(Side::Black)
    } else {
        None
    }
}

/// The piece that a FEN letter stands for.
pub fn piece_from_char(c: char) -> (r: Option<Piece>)
    ensures
        r == piece_of_char(c),
{
    let (color, lower) = if 'A' <= c && c <= 'Z' {
        (Side::White, false)
    } else {
        (Side::Black, true)
    };
    let kind = match c {
        'P' | 'p' => Kind::Pawn,
        'N' | 'n' => Kind::Knight,
        'B' | 'b' => Kind::Bishop,
        'R' | 'r' => Kind::Rook,
        'Q' | 'q' => Kind::Queen,
        'K' | 'k' => Kind::King,
        _ => {
            return None;
        },
    };
    Some(Piece { color, kind })
}

/// The run of empty cells that a FEN digit stands for.
pub fn run_from_char(c: char) -> (r: Option<usize>)
    ensures
        r matches Some(d) ==> run_of_char(c) == Some(d as int),
        r is None ==> run_of_char(c) is None,
{
    match c {
        '1' => Some(1),
        '2' => Some(2),
        '3' => Some(3),
        '4' => Some(4),
        '5' => Some(5),
        '6' => Some(6),
        '7' => Some(7),
        '8' => Some(8),
        _ => None,
    }
}

} // verus!

verus! {

proof fn lemma_occupied_none(cells: Seq<Option<Piece>>)
    requires
        forall|k: int| 0 <= k < cells.len() ==> cells[k] is None,
    ensures
        occupied(cells) == 0,
    decreases cells.len(),
{
    if cells.len() > 0 {
        lemma_occupied_none(cells.drop_last());
    }
}

proof fn lemma_occupied_fill(cells: Seq<Option<Piece>>, k: int, p: Piece)
    requires
        0 <= k < cells.len(),
        cells[k] is None,
    ensures
        occupied(cells.update(k, Some(p))) == occupied(cells) + 1,
    decreases cells.len(),
{
    let u = cells.update(k, Some(p));
    if k < cells.len() - 1 {
        assert(u.drop_last() =~= cells.drop_last().update(k, Some(p)));
        lemma_occupied_fill(cells.drop_last(), k, p);
    } else {
        assert(u.drop_last() =~= cells.drop_last());
    }
}

proof fn lemma_decode_counts_letters(
    s: Seq<char>,
    i: int,
    cells: Seq<Option<Piece>>,
    rank: int,
    file: int,
)
    requires
        0 <= i,
        0 <= rank <= 8,
        0 <= file <= 8,
        cells.len() == CELLS,
        forall|k: int| 8 * rank + file <= k < CELLS ==> cells[k] is None,
        decode_from(s, i, cells, rank, file) is Ok,
        fits_from(s, i, rank, file),
    ensures
        occupied(decode_from(s, i, cells, rank, file)->Ok_0) == occupied(cells) + letters_from(
            s,
            i,
        ),
    decreases s.len() - i,
{
    if i >= s.len() || s[i] == ' ' {
    } else if piece_of_char(s[i]) is Some {
        let p = piece_of_char(s[i])->0;
        lemma_occupied_fill(cells, 8 * rank + file, p);
        lemma_decode_counts_letters(
            s,
            i + 1,
            cells.update(8 * rank + file, Some(p)),
            rank,
            file + 1,
        );
    } else if run_of_char(s[i]) is Some {
        lemma_decode_counts_letters(
            s,
            i + 1,
            cells,
            rank,
            min_int(file + run_of_char(s[i])->0, 8),
        );
    } else {
        lemma_decode_counts_letters(s, i + 1, cells, min_int(rank + 1, 8), 0);
    }
}

proof fn lemma_decode_from_shape(
    s: Seq<char>,
    i: int,
    cells: Seq<Option<Piece>>,
    rank: int,
    file: int,
)
    requires
        0 <= i,
        0 <= rank <= 8,
        0 <= file <= 8,
        cells.len() == CELLS,
    ensures
        decode_from(s, i, cells, rank, file) matches Ok(c) ==> c.len() == CELLS,
        decode_from(s, i, cells, rank, file) matches Err(k) ==> 0 <= k < s.len(),
    decreases s.len() - i,
{
    if i >= s.len() || s[i] == ' ' {
    } else if piece_of_char(s[i]) is Some {
        let placed = if rank < 8 && file < 8 {
            cells.update(8 * rank + file, piece_of_char(s[i]))
        } else {
            cells
        };
        lemma_decode_from_shape(s, i + 1, placed, rank, min_int(file + 1, 8));
    } else if run_of_char(s[i]) is Some {
        lemma_decode_from_shape(s, i + 1, cells, rank, min_int(file + run_of_char(s[i])->0, 8));
    } else if s[i] == '/' {
        lemma_decode_from_shape(s, i + 1, cells, min_int(rank + 1, 8), 0);
    }
}

/// A decoded board has 64 cells; a refused text is refused at one of its characters.
pub proof fn lemma_decode_length(fen: Seq<char>)
    ensures
        decode(fen) matches Ok(c) ==> c.len() == CELLS,
        decode(fen) matches Err(k) ==> 0 <= k < fen.len(),
{
    lemma_decode_from_shape(fen, 0, empty_cells(), 0, 0);
}

/// Every letter of an accepted placement field that fits on the board puts
/// one piece on it: the number of occupied cells equals the number of letters
/// before the first space.
pub proof fn lemma_one_piece_per_letter(fen: Seq<char>)
    requires
        decode(fen) is Ok,
        fits(fen),
    ensures
        occupied(decode(fen)->Ok_0) == letter_count(fen),
{
    lemma_occupied_none(empty_cells());
    lemma_decode_counts_letters(fen, 0, empty_cells(), 0, 0);
}

} // verus!

verus! {

/// The decoding cursor (rank, file) just before character `i` of the
/// placement field: where a piece letter at `i` goes.
pub open spec fn cursor_at(s: Seq<char>, i: int) -> (int, int)
    decreases i,
{
    if i <= 0 {
        (0, 0)
    } else {
        let (r, f) = cursor_at(s, i - 1);
        let c = s[i - 1];
        if piece_of_char(c) is Some {
            (r, min_int(f + 1, 8))
        } else if run_of_char(c) is Some {
            (r, min_int(f + run_of_char(c)->0, 8))
        } else if c == '/' {
            (min_int(r + 1, 8), 0)
        } else {
            (r, f)
        }
    }
}

proof fn lemma_cursor_range(s: Seq<char>, i: int)
    ensures
        0 <= cursor_at(s, i).0 <= 8,
        0 <= cursor_at(s, i).1 <= 8,
    decreases i,
{
    if i > 0 {
        lemma_cursor_range(s, i - 1);
    }
}

proof fn lemma_before_space(s: Seq<char>, j: int, t: int)
    requires
        0 <= j <= t < first_space(s, j),
    ensures
        s[t] != ' ',
    decreases s.len() - j,
{
    if j < t {
        lemma_before_space(s, j + 1, t);
    }
}

proof fn lemma_first_space_bound(s: Seq<char>, j: int)
    requires
        0 <= j,
    ensures
        first_space(s, j) <= s.len(),
    decreases s.len() - j,
{
    if j < s.len() && s[j] != ' ' {
        lemma_first_space_bound(s, j + 1);
    }
}

proof fn lemma_decode_keeps(
    s: Seq<char>,
    j: int,
    cells: Seq<Option<Piece>>,
    rank: int,
    file: int,
    idx: int,
)
    requires
        0 <= j,
        0 <= rank <= 8,
        0 <= file <= 8,
        cells.len() == CELLS,
        0 <= idx < CELLS,
        idx < 8 * rank + file,
        decode_from(s, j, cells, rank, file) is Ok,
    ensures
        decode_from(s, j, cells, rank, file)->Ok_0[idx] == cells[idx],
    decreases s.len() - j,
{
    if j >= s.len() || s[j] == ' ' {
    } else if piece_of_char(s[j]) is Some {
        let placed = if rank < 8 && file < 8 {
            cells.update(8 * rank + file, piece_of_char(s[j]))
        } else {
            cells
        };
        lemma_decode_keeps(s, j + 1, placed, rank, min_int(file + 1, 8), idx);
    } else if run_of_char(s[j]) is Some {
        lemma_decode_keeps(s, j + 1, cells, rank, min_int(file + run_of_char(s[j])->0, 8), idx);
    } else {
        lemma_decode_keeps(s, j + 1, cells, min_int(rank + 1, 8), 0, idx);
    }
}

proof fn lemma_decode_places(s: Seq<char>, j: int, cells: Seq<Option<Piece>>, i: int)
    requires
        0 <= j <= i < s.len(),
        forall|t: int| j <= t <= i ==> s[t] != ' ',
        piece_of_char(s[i]) is Some,
        cells.len() == CELLS,
        decode_from(s, j, cells, cursor_at(s, j).0, cursor_at(s, j).1) is Ok,
        fits_from(s, j, cursor_at(s, j).0, cursor_at(s, j).1),
    ensures
        cursor_at(s, i).0 < 8,
        cursor_at(s, i).1 < 8,
        decode_from(s, j, cells, cursor_at(s, j).0, cursor_at(s, j).1)->Ok_0[8 * cursor_at(s, i).0
            + cursor_at(s, i).1] == piece_of_char(s[i]),
    decreases i - j,
{
    let (r, f) = cursor_at(s, j);
    lemma_cursor_range(s, j);
    assert(cursor_at(s, j + 1) == {
        let c = s[j];
        if piece_of_char(c) is Some {
            (r, min_int(f + 1, 8))
        } else if run_of_char(c) is Some {
            (r, min_int(f + run_of_char(c)->0, 8))
        } else if c == '/' {
            (min_int(r + 1, 8), 0)
        } else {
            (r, f)
        }
    });
    if j == i {
        let placed = cells.update(8 * r + f, piece_of_char(s[j]));
        lemma_decode_keeps(s, j + 1, placed, r, f + 1, 8 * r + f);
    } else if piece_of_char(s[j]) is Some {
        let placed = cells.update(8 * r + f, piece_of_char(s[j]));
        lemma_decode_places(s, j + 1, placed, i);
    } else {
        lemma_decode_places(s, j + 1, cells, i);
    }
}

/// Each piece letter of an accepted placement field that fits on the board
/// lands on the cell of its cursor: rank `cursor_at(fen, i).0` counted from
/// rank 8 (the number of `/` before it), file `cursor_at(fen, i).1` counted
/// from file a (the cells before it in its rank).
pub proof fn lemma_letter_lands(fen: Seq<char>, i: int)
    requires
        decode(fen) is Ok,
        fits(fen),
        0 <= i < first_space(fen, 0),
        piece_of_char(fen[i]) is Some,
    ensures
        0 <= cursor_at(fen, i).0 < 8,
        0 <= cursor_at(fen, i).1 < 8,
        decode(fen)->Ok_0[8 * cursor_at(fen, i).0 + cursor_at(fen, i).1] == piece_of_char(fen[i]),
{
    assert forall|t: int| 0 <= t <= i implies fen[t] != ' ' by {
        lemma_before_space(fen, 0, t);
    }
    assert(empty_cells().len() == CELLS);
    lemma_first_space_bound(fen, 0);
    lemma_cursor_range(fen, i);
    lemma_decode_places(fen, 0, empty_cells(), i);
}

/// Index of the cell under the decoding cursor before character `i`.
pub open spec fn cursor_cell(s: Seq<char>, i: int) -> int {
    8 * cursor_at(s, i).0 + cursor_at(s, i).1
}

proof fn lemma_cursor_monotone(s: Seq<char>, t: int, u: int)
    requires
        0 <= t <= u,
        cursor_at(s, u).0 < 8,
    ensures
        cursor_at(s, t).0 <= cursor_at(s, u).0,
        cursor_cell(s, t) <= cursor_cell(s, u),
    decreases u - t,
{
    lemma_cursor_range(s, t);
    lemma_cursor_range(s, u);
    if t < u {
        lemma_cursor_range(s, u - 1);
        lemma_cursor_monotone(s, t, u - 1);
    }
}

/// Piece letters land in the order they are written: a later letter of an
/// accepted placement field that fits on the board goes to a later cell.
pub proof fn lemma_letters_in_order(fen: Seq<char>, i: int, j: int)
    requires
        decode(fen) is Ok,
        fits(fen),
        0 <= i < j < first_space(fen, 0),
        piece_of_char(fen[i]) is Some,
        piece_of_char(fen[j]) is Some,
    ensures
        cursor_cell(fen, i) < cursor_cell(fen, j),
{
    lemma_letter_lands(fen, i);
    lemma_letter_lands(fen, j);
    lemma_cursor_monotone(fen, i + 1, j);
    assert(cursor_cell(fen, i + 1) == cursor_cell(fen, i) + 1);
}

} // verus!

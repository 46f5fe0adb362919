use savage::board::Board;
use savage::position::{FenError, Kind, Piece, Position, Side, side_from_fen};
use savage::render::{GlyphSet, RenderError, asset_path};
use savage::text::push_int;

const START: &str = "rnbqkbnr/pppppppp/8/8/8/8/PPPPPPPP/RNBQKBNR w KQkq - 0 1";

fn all_pieces() -> Vec<Piece> {
    let mut v = Vec::new();
    for color in [Side::White, Side::Black] {
        for kind in [Kind::Pawn, Kind::Knight, Kind::Bishop, Kind::Rook, Kind::Queen, Kind::King] {
            v.push(Piece { color, kind });
        }
    }
    v
}

fn full_glyphs() -> GlyphSet {
    let mut g = GlyphSet::new();
    for p in all_pieces() {
        g.set(p, "<g/>\n".to_string());
    }
    g
}

fn board_with(fen: &str) -> Board {
    let mut b = Board::default();
    b.fen = fen.to_string();
    b
}

fn count(hay: &str, needle: &str) -> usize {
    hay.matches(needle).count()
}

#[test]
fn side_white_to_move() {
    assert_eq!(board_with(START).side_to_move(), Some(Side::White));
    assert!(board_with(START).white_to_move());
    assert!(!board_with(START).black_to_move());
}

#[test]
fn side_black_to_move() {
    let b = board_with("8/8/8/8/8/8/8/8 b - - 0 1");
    assert_eq!(b.side_to_move(), Some(Side::Black));
    assert!(b.black_to_move());
    assert!(!b.white_to_move());
}

#[test]
fn side_unknown_without_space() {
    assert_eq!(side_from_fen("rnbqkbnr/pppppppp/8/8/8/8/PPPPPPPP/RNBQKBNR"), None);
    assert_eq!(side_from_fen(""), None);
    assert_eq!(side_from_fen("8/8/8/8/8/8/8/8 "), None);
    assert_eq!(side_from_fen("8/8/8/8/8/8/8/8 x - - 0 1"), None);
    let b = board_with("");
    assert!(!b.white_to_move());
    assert!(!b.black_to_move());
}

#[test]
fn parse_start_position() {
    let p = Position::parse(START).unwrap();
    assert_eq!(p.placement.len(), 64);
    assert_eq!(p.placement.iter().filter(|c| c.is_some()).count(), 32);
    assert_eq!(p.placement[0], Some(Piece { color: Side::Black, kind: Kind::Rook }));
    assert_eq!(p.placement[4], Some(Piece { color: Side::Black, kind: Kind::King }));
    assert_eq!(p.placement[60], Some(Piece { color: Side::White, kind: Kind::King }));
    assert_eq!(p.placement[63], Some(Piece { color: Side::White, kind: Kind::Rook }));
    assert_eq!(p.placement[20], None);
    assert_eq!(p.side, Some(Side::White));
}

#[test]
fn parse_runs_and_ranks() {
    let p = Position::parse("4k3/8/8/8/8/8/8/R6K b").unwrap();
    assert_eq!(p.placement[4], Some(Piece { color: Side::Black, kind: Kind::King }));
    assert_eq!(p.placement[56], Some(Piece { color: Side::White, kind: Kind::Rook }));
    assert_eq!(p.placement[63], Some(Piece { color: Side::White, kind: Kind::King }));
    assert_eq!(p.placement.iter().filter(|c| c.is_some()).count(), 3);
    assert_eq!(p.side, Some(Side::Black));
}

#[test]
fn parse_empty_text() {
    let p = Position::parse("").unwrap();
    assert!(p.placement.iter().all(|c| c.is_none()));
    assert_eq!(p.side, None);
}

#[test]
fn parse_ignores_later_fields() {
    let p = Position::parse("8/8/8/8/8/8/8/8 w ?! zz 9 x").unwrap();
    assert!(p.placement.iter().all(|c| c.is_none()));
}

#[test]
fn parse_rejects_digit_nine() {
    assert_eq!(Position::parse("9/8/8/8/8/8/8/8 w - - 0 1").unwrap_err(), FenError::MalformedFen(0));
    assert_eq!(Position::parse("8/8/8/9/8/8/8/8 w - - 0 1").unwrap_err(), FenError::MalformedFen(6));
}

#[test]
fn parse_rejects_digit_zero_and_strange_characters() {
    assert_eq!(Position::parse("0/8 w").unwrap_err(), FenError::MalformedFen(0));
    assert_eq!(Position::parse("8/3x4 w").unwrap_err(), FenError::MalformedFen(3));
    assert_eq!(Position::parse("8/8-8").unwrap_err(), FenError::MalformedFen(3));
}

#[test]
fn parse_drops_what_falls_off_the_board() {
    let pawn = Some(Piece { color: Side::Black, kind: Kind::Pawn });
    let p = Position::parse("ppppppppp/P w").unwrap();
    assert_eq!(p.placement.iter().filter(|c| c.is_some()).count(), 9);
    assert!((0..8).all(|k| p.placement[k] == pawn));
    assert_eq!(p.placement[8], Some(Piece { color: Side::White, kind: Kind::Pawn }));
    let p = Position::parse("4k4Q/R w").unwrap();
    assert_eq!(p.placement[4], Some(Piece { color: Side::Black, kind: Kind::King }));
    assert_eq!(p.placement[8], Some(Piece { color: Side::White, kind: Kind::Rook }));
    assert_eq!(p.placement.iter().filter(|c| c.is_some()).count(), 2);
    let p = Position::parse("8/8/8/8/8/8/8/8/ w").unwrap();
    assert!(p.placement.iter().all(|c| c.is_none()));
    assert_eq!(p.side, Some(Side::White));
    let p = Position::parse("8/8/8/8/8/8/8/7K/k/q w").unwrap();
    assert_eq!(p.placement[63], Some(Piece { color: Side::White, kind: Kind::King }));
    assert_eq!(p.placement.iter().filter(|c| c.is_some()).count(), 1);
}

#[test]
fn malformed_fen_is_rejected_before_drawing() {
    let b = board_with("9/8/8/8/8/8/8/8 w - - 0 1");
    match b.build_board(&full_glyphs()) {
        Err(RenderError::MalformedFen(i)) => assert_eq!(i, 0),
        other => panic!("unexpected result {:?}", other),
    }
}

#[test]
fn outer_size_of_default_board() {
    let b = Board::default();
    assert_eq!(b.outer_size(), 8 * 64 + 2 * 48);
    let doc = b.build_board(&full_glyphs()).unwrap();
    assert!(doc.contains("viewBox='0 0 608 608'"));
    assert!(doc.contains("width='608' height='608'"));
}

#[test]
fn outer_size_of_odd_board() {
    let mut b = Board::default();
    b.units = 10;
    b.margin = 0;
    assert_eq!(b.outer_size(), 80);
    b.units = 0;
    assert_eq!(b.outer_size(), 0);
}

#[test]
fn flip_twice_restores_points() {
    let mut b = Board::default();
    assert_eq!(b.square_origin(0), (48, 48));
    assert_eq!(b.square_origin(63), (48 + 7 * 64, 48 + 7 * 64));
    assert_eq!(b.square_origin(9), (48 + 64, 48 + 64));
    let p = b.square_origin(9);
    assert_eq!(b.mirror(b.mirror(p)), p);
    assert_eq!(b.mirror((-5, 1000)), (2 * 48 + 7 * 64 + 5, 2 * 48 + 7 * 64 - 1000));
    let up = b.square_origin(9);
    b.flip = true;
    assert_eq!(b.square_origin(9), b.mirror(up));
    assert_eq!(b.square_origin(0), (48 + 7 * 64, 48 + 7 * 64));
}

#[test]
fn grayscale_ignores_colors() {
    let mut b = Board::default();
    b.grayscale = true;
    b.color_light = "123456".to_string();
    b.color_dark = "abcdef".to_string();
    let doc = b.build_board(&full_glyphs()).unwrap();
    assert!(doc.contains("style='fill:#fff;'"));
    assert!(doc.contains("fill='url(#crosshatch)'"));
    assert!(doc.contains("<pattern id='crosshatch' width='5' height='5'"));
    assert!(!doc.contains("123456"));
    assert!(!doc.contains("abcdef"));
    let mut c = Board::default();
    c.grayscale = true;
    assert_eq!(doc, c.build_board(&full_glyphs()).unwrap());
}

#[test]
fn colored_squares_use_configured_colors() {
    let doc = Board::default().build_board(&full_glyphs()).unwrap();
    assert!(doc.contains("fill='#846c40'"));
    assert!(doc.contains("style='fill:#a48c62;'"));
    assert!(doc.contains("width='128' height='128' patternUnits='userSpaceOnUse'"));
    assert!(!doc.contains("crosshatch"));
}

#[test]
fn empty_board_document() {
    let doc = board_with("8/8/8/8/8/8/8/8 w - - 0 1").build_board(&GlyphSet::new()).unwrap();
    assert!(doc.starts_with("<?xml version='1.0' encoding='utf-8'?>\n<svg viewBox="));
    assert!(doc.contains("<!-- DARK SQUARES -->"));
    assert!(doc.contains("<!-- LIGHT SQUARES -->"));
    assert!(doc.contains("<!-- BORDER -->"));
    assert_eq!(count(&doc, "<svg x="), 0);
    assert!(doc.ends_with("<!-- PIECES -->\n</svg>\n"));
}

#[test]
fn start_position_document() {
    let doc = Board::default().build_board(&full_glyphs()).unwrap();
    assert_eq!(count(&doc, "<svg x="), 32);
    assert_eq!(count(&doc, "<g/>"), 32);
    assert_eq!(count(&doc, "<?xml"), 1);
    assert_eq!(count(&doc, "<svg viewBox="), 1);
    assert_eq!(count(&doc, "<svg"), 33);
    assert_eq!(count(&doc, "</svg>"), 33);
    assert!(doc.ends_with("</svg>\n</svg>\n"));
    assert!(doc.contains("<svg x='48' y='48' width='64' height='64'>\n<g/>\n</svg>\n"));
    assert!(doc.contains("<svg x='496' y='496' width='64' height='64'>\n<g/>\n</svg>\n"));
}

#[test]
fn glyph_count_equals_letter_count() {
    let doc = board_with("r3k2r/8/8/8/8/8/8/R3K2R w KQkq - 0 1").build_board(&full_glyphs()).unwrap();
    assert_eq!(count(&doc, "<svg x="), 6);
    let doc = board_with("8/8/8/4p3/4P3/8/8/8 b").build_board(&full_glyphs()).unwrap();
    assert_eq!(count(&doc, "<svg x="), 2);
}

#[test]
fn flipped_board_draws_pieces_upside_down() {
    let mut b = board_with("r7/8/8/8/8/8/8/7R w");
    b.flip = true;
    let mut g = GlyphSet::new();
    g.set(Piece { color: Side::Black, kind: Kind::Rook }, "BR".to_string());
    g.set(Piece { color: Side::White, kind: Kind::Rook }, "WR".to_string());
    let doc = b.build_board(&g).unwrap();
    assert!(doc.contains("<svg x='496' y='496' width='64' height='64'>\nBR</svg>\n"));
    assert!(doc.contains("<svg x='48' y='48' width='64' height='64'>\nWR</svg>\n"));
}

#[test]
fn missing_glyph_stops_drawing() {
    let mut h = GlyphSet::new();
    for p in all_pieces() {
        if p != (Piece { color: Side::White, kind: Kind::Knight }) {
            h.set(p, "<g/>\n".to_string());
        }
    }
    match Board::default().build_board(&h) {
        Err(RenderError::AssetNotFound { path, partial }) => {
            assert_eq!(path, "svg/merida/wN.svg");
            assert_eq!(count(&partial, "<svg x="), 25);
            assert!(partial.ends_with("</svg>\n"));
            assert!(partial.starts_with("<?xml"));
        },
        other => panic!("unexpected result {:?}", other),
    }
    match Board::default().build_board(&GlyphSet::new()) {
        Err(RenderError::AssetNotFound { path, partial }) => {
            assert_eq!(path, "svg/merida/bR.svg");
            assert!(partial.ends_with("<!-- PIECES -->\n"));
        },
        other => panic!("unexpected result {:?}", other),
    }
}

#[test]
fn asset_paths() {
    assert_eq!(asset_path("merida", Piece { color: Side::White, kind: Kind::Knight }), "svg/merida/wN.svg");
    assert_eq!(asset_path("alpha", Piece { color: Side::Black, kind: Kind::Pawn }), "svg/alpha/bP.svg");
    assert_eq!(asset_path("", Piece { color: Side::Black, kind: Kind::King }), "svg//bK.svg");
}

#[test]
fn glyph_set_lookup() {
    let mut g = GlyphSet::new();
    let q = Piece { color: Side::Black, kind: Kind::Queen };
    assert!(g.glyph(q).is_none());
    g.set(q, "queen".to_string());
    assert_eq!(g.glyph(q).map(|s| s.as_str()), Some("queen"));
    assert!(g.glyph(Piece { color: Side::White, kind: Kind::Queen }).is_none());
}

#[test]
fn border_insets() {
    let mut b = board_with("8/8/8/8/8/8/8/8 w");
    let doc = b.build_board(&GlyphSet::new()).unwrap();
    assert!(doc.contains("<rect x='48' y='48' width='512' height='512' fill='none' stroke-width='0'"));
    assert!(doc.contains("<rect x='47' y='47' width='514' height='514' fill='none' stroke-width='2'"));
    b.border = 1;
    let doc = b.build_board(&GlyphSet::new()).unwrap();
    assert!(doc.contains("<rect x='47' y='47' width='514' height='514' fill='none' stroke-width='1'"));
    b.border = 3;
    let doc = b.build_board(&GlyphSet::new()).unwrap();
    assert!(doc.contains("<rect x='47' y='47' width='514' height='514' fill='none' stroke-width='3'"));
    b.border = 6;
    b.corner_radius = 9;
    let doc = b.build_board(&GlyphSet::new()).unwrap();
    assert!(doc.contains("<rect x='45' y='45' width='518' height='518' fill='none' stroke-width='6' stroke-location='outside' stroke='#000' rx='9' ry='9' />"));
}

#[test]
fn coordinates_follow_orientation() {
    let mut b = board_with("8/8/8/8/8/8/8/8 w");
    b.show_coords = true;
    let doc = b.build_board(&GlyphSet::new()).unwrap();
    assert_eq!(count(&doc, "<text "), 16);
    assert!(doc.contains("<style> .small { font: normal 20px sans-serif; } </style>"));
    assert!(doc.contains("<text x=\"75\" y=\"582\" fill=\"#000\" class=\"small\">a</text>"));
    assert!(doc.contains("<text x=\"26\" y=\"90\" fill=\"#000\" class=\"small\">8</text>"));
    b.flip = true;
    let doc = b.build_board(&GlyphSet::new()).unwrap();
    assert!(doc.contains("<text x=\"75\" y=\"582\" fill=\"#000\" class=\"small\">h</text>"));
    assert!(doc.contains("<text x=\"26\" y=\"90\" fill=\"#000\" class=\"small\">1</text>"));
    b.show_coords = false;
    let doc = b.build_board(&GlyphSet::new()).unwrap();
    assert_eq!(count(&doc, "<text "), 0);
}

#[test]
fn turn_indicator_white_at_bottom() {
    let mut b = board_with("8/8/8/8/8/8/8/8 w");
    b.show_indicator = true;
    let doc = b.build_board(&GlyphSet::new()).unwrap();
    assert!(doc.contains("<path d='M572 540 l12 -24 l12 24 q-12 -12 -24 0' stroke='black' stroke-width='2' fill='#fff' />"));
    b.flip = true;
    let doc = b.build_board(&GlyphSet::new()).unwrap();
    assert!(doc.contains("<path d='M572 68 l12 24 l12 -24 q-12 12 -24 0' stroke='black' stroke-width='2' fill='#fff' />"));
}

#[test]
fn turn_indicator_black_at_top() {
    let mut b = board_with("8/8/8/8/8/8/8/8 b");
    b.show_indicator = true;
    let doc = b.build_board(&GlyphSet::new()).unwrap();
    assert!(doc.contains("<path d='M572 68 l12 24 l12 -24 q-12 12 -24 0' stroke='black' stroke-width='1' fill='#000' />"));
}

#[test]
fn turn_indicator_omitted_when_side_unknown() {
    let mut b = board_with("8/8/8/8/8/8/8/8");
    b.show_indicator = true;
    let doc = b.build_board(&GlyphSet::new()).unwrap();
    assert_eq!(count(&doc, "<path"), 0);
    b.fen = "8/8/8/8/8/8/8/8 w".to_string();
    b.show_indicator = false;
    let doc = b.build_board(&GlyphSet::new()).unwrap();
    assert_eq!(count(&doc, "<path"), 0);
}

#[test]
fn header_names_theme_and_position() {
    let doc = Board::default().build_board(&full_glyphs()).unwrap();
    assert!(doc.contains("<!-- Theme: merida -->\n"));
    assert!(doc.contains(&format!("<!-- FEN: {} -->\n", START)));
}

#[test]
fn decimal_text() {
    let mut s = String::from("n=");
    push_int(&mut s, -42);
    assert_eq!(s, "n=-42");
    let mut s = String::new();
    push_int(&mut s, 0);
    push_int(&mut s, 1234567);
    assert_eq!(s, "01234567");
    let mut s = String::new();
    push_int(&mut s, i64::MAX);
    assert_eq!(s, "9223372036854775807");
}

#[test]
fn zero_square_size_is_degenerate() {
    let mut b = Board::default();
    b.units = 0;
    b.margin = 0;
    let doc = b.build_board(&full_glyphs()).unwrap();
    assert!(doc.contains("width='0' height='0'>"));
    assert_eq!(count(&doc, "<svg x='0' y='0' width='0' height='0'>"), 32);
}

//! The outlines pieces are drawn from.
//!
//! Pieces are silhouettes rather than glyphs of a font: a piece needs a solid
//! body and a contrasting outline to stay readable on a dark square. Points are
//! in thousandths of the square's side, from its top left.

use vstd::prelude::*;

use crate::chess::pieces::Piece;

verus! {

/// The foot every piece shares, so that a row of them sits on one line.
pub const BASE: [(u16, u16); 4] = [
    (135, 945),
    (865, 945),
    (795, 855),
    (205, 855),
];

/// The pawn's head.
pub const PAWN_HEAD: [(u16, u16); 9] = [
    (500, 165),
    (590, 215),
    (622, 310),
    (575, 400),
    (640, 455),
    (360, 455),
    (425, 400),
    (378, 310),
    (410, 215),
];

/// The pawn's body.
pub const PAWN_BODY: [(u16, u16); 6] = [
    (385, 455),
    (615, 455),
    (680, 700),
    (720, 860),
    (280, 860),
    (320, 700),
];

/// The rook's battlement.
pub const ROOK_BATTLEMENT: [(u16, u16); 12] = [
    (210, 185),
    (330, 185),
    (330, 270),
    (430, 270),
    (430, 185),
    (570, 185),
    (570, 270),
    (670, 270),
    (670, 185),
    (790, 185),
    (790, 370),
    (210, 370),
];

/// The rook's collar.
pub const ROOK_COLLAR: [(u16, u16); 4] = [
    (270, 370),
    (730, 370),
    (690, 450),
    (310, 450),
];

/// The rook's body.
pub const ROOK_BODY: [(u16, u16); 4] = [
    (310, 450),
    (690, 450),
    (735, 860),
    (265, 860),
];

/// The knight: a horse's head in profile, in one outline without a seam.
pub const KNIGHT_HEAD: [(u16, u16); 19] = [
    (270, 860),
    (282, 700),
    (226, 596),
    (150, 520),
    (128, 446),
    (196, 408),
    (248, 416),
    (292, 336),
    (366, 256),
    (442, 196),
    (452, 86),
    (528, 192),
    (586, 98),
    (632, 238),
    (706, 344),
    (752, 470),
    (736, 604),
    (712, 724),
    (730, 860),
];

/// The bishop's mitre.
pub const BISHOP_MITRE: [(u16, u16); 9] = [
    (500, 128),
    (600, 240),
    (660, 360),
    (640, 462),
    (560, 522),
    (440, 522),
    (360, 462),
    (340, 360),
    (400, 240),
];

/// The bishop's collar.
pub const BISHOP_COLLAR: [(u16, u16); 4] = [
    (360, 522),
    (640, 522),
    (660, 585),
    (340, 585),
];

/// The bishop's body.
pub const BISHOP_BODY: [(u16, u16); 4] = [
    (360, 585),
    (640, 585),
    (712, 860),
    (288, 860),
];

/// The queen's crown.
pub const QUEEN_CROWN: [(u16, u16); 9] = [
    (200, 370),
    (155, 135),
    (300, 285),
    (385, 120),
    (500, 270),
    (615, 120),
    (700, 285),
    (845, 135),
    (800, 370),
];

/// The queen's collar.
pub const QUEEN_COLLAR: [(u16, u16); 4] = [
    (240, 370),
    (760, 370),
    (740, 448),
    (260, 448),
];

/// The queen's body.
pub const QUEEN_BODY: [(u16, u16); 6] = [
    (278, 448),
    (722, 448),
    (664, 630),
    (748, 860),
    (252, 860),
    (336, 630),
];

/// The king's cross.
pub const KING_CROSS: [(u16, u16); 12] = [
    (452, 35),
    (548, 35),
    (548, 108),
    (620, 108),
    (620, 192),
    (548, 192),
    (548, 272),
    (452, 272),
    (452, 192),
    (380, 192),
    (380, 108),
    (452, 108),
];

/// The king's crown.
pub const KING_CROWN: [(u16, u16); 5] = [
    (232, 448),
    (282, 300),
    (500, 262),
    (718, 300),
    (768, 448),
];

/// The king's collar.
pub const KING_COLLAR: [(u16, u16); 4] = [
    (262, 448),
    (738, 448),
    (716, 522),
    (284, 522),
];

/// The king's body.
pub const KING_BODY: [(u16, u16); 6] = [
    (284, 522),
    (716, 522),
    (648, 665),
    (752, 860),
    (248, 860),
    (352, 665),
];

/// The polygons a piece is built from, in the order they are drawn.
pub open spec fn outlines(piece: Piece) -> Seq<Seq<(u16, u16)>> {
    match piece {
        Piece::Pawn => seq![PAWN_HEAD@, PAWN_BODY@, BASE@],
        Piece::Knight => seq![KNIGHT_HEAD@, BASE@],
        Piece::Bishop => seq![BISHOP_MITRE@, BISHOP_COLLAR@, BISHOP_BODY@, BASE@],
        Piece::Rook => seq![ROOK_BATTLEMENT@, ROOK_COLLAR@, ROOK_BODY@, BASE@],
        Piece::Queen => seq![QUEEN_CROWN@, QUEEN_COLLAR@, QUEEN_BODY@, BASE@],
        Piece::King => seq![KING_CROSS@, KING_CROWN@, KING_COLLAR@, KING_BODY@, BASE@],
    }
}

/// What polygons consist of.
pub open spec fn polygons(shapes: Seq<Vec<(u16, u16)>>) -> Seq<Seq<(u16, u16)>> {
    shapes.map_values(|shape: Vec<(u16, u16)>| shape@)
}

/// The points of a polygon.
fn polygon(points: &[(u16, u16)]) -> (shape: Vec<(u16, u16)>)
    ensures
        shape@ == points@,
{
    let mut shape: Vec<(u16, u16)> = Vec::new();
    for index in 0..points.len()
        invariant
            shape@ =~= points@.take(index as int),
    {
        shape.push(points[index]);
    }
    shape
}

/// The polygons a piece is built from, in the order they are drawn.
pub fn shapes(piece: Piece) -> (shapes: Vec<Vec<(u16, u16)>>)
    ensures
        polygons(shapes@) == outlines(piece),
{
    let mut shapes: Vec<Vec<(u16, u16)>> = Vec::new();
    match piece {
        Piece::Pawn => {
            shapes.push(polygon(&PAWN_HEAD));
            shapes.push(polygon(&PAWN_BODY));
        },
        Piece::Knight => {
            shapes.push(polygon(&KNIGHT_HEAD));
        },
        Piece::Bishop => {
            shapes.push(polygon(&BISHOP_MITRE));
            shapes.push(polygon(&BISHOP_COLLAR));
            shapes.push(polygon(&BISHOP_BODY));
        },
        Piece::Rook => {
            shapes.push(polygon(&ROOK_BATTLEMENT));
            shapes.push(polygon(&ROOK_COLLAR));
            shapes.push(polygon(&ROOK_BODY));
        },
        Piece::Queen => {
            shapes.push(polygon(&QUEEN_CROWN));
            shapes.push(polygon(&QUEEN_COLLAR));
            shapes.push(polygon(&QUEEN_BODY));
        },
        Piece::King => {
            shapes.push(polygon(&KING_CROSS));
            shapes.push(polygon(&KING_CROWN));
            shapes.push(polygon(&KING_COLLAR));
            shapes.push(polygon(&KING_BODY));
        },
    }
    shapes.push(polygon(&BASE));
    assert(polygons(shapes@) =~= outlines(piece));
    shapes
}

/// Every piece stays inside its square: no point of it is beyond the side.
pub proof fn law_pieces_stay_inside_their_square(piece: Piece, k: int, i: int)
    requires
        0 <= k < outlines(piece).len(),
        0 <= i < outlines(piece)[k].len(),
    ensures
        outlines(piece)[k][i].0 <= 1000,
        outlines(piece)[k][i].1 <= 1000,
{
}

/// Every polygon has an inside: it has at least three points.
pub proof fn law_shapes_are_polygons(piece: Piece, k: int)
    requires
        0 <= k < outlines(piece).len(),
    ensures
        outlines(piece)[k].len() >= 3,
{
}

/// Every piece stands on the shared foot, which is drawn last.
pub proof fn law_pieces_share_a_base(piece: Piece)
    ensures
        outlines(piece).last() == BASE@,
{
}

} // verus!

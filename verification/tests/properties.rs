use rustytwisty::cube::cube::{ColumnPosition, CornerPosition, Cube, FaceKind, RowPosition};
use rustytwisty::cube::cubie::{BuildCubie, Center, Color, Corner, Cubie, Edge, Face};
use rustytwisty::cube::cube::{Column, Row};
use rustytwisty::cube::{CubeFace, CubeFaceKind, CubieColor};

fn all_colors() -> Vec<Color> {
    vec![
        Color::Blue,
        Color::Green,
        Color::Orange,
        Color::Red,
        Color::White,
        Color::Yellow,
        Color::Uninit,
    ]
}

#[test]
fn opposite_color_is_involutive() {
    for c in all_colors() {
        assert_eq!(c.opposite_color().opposite_color(), c);
    }
}

#[test]
fn opposite_color_pairs() {
    assert_eq!(Color::Blue.opposite_color(), Color::Green);
    assert_eq!(Color::Green.opposite_color(), Color::Blue);
    assert_eq!(Color::Orange.opposite_color(), Color::Red);
    assert_eq!(Color::Red.opposite_color(), Color::Orange);
    assert_eq!(Color::White.opposite_color(), Color::Yellow);
    assert_eq!(Color::Yellow.opposite_color(), Color::White);
    assert_eq!(Color::Uninit.opposite_color(), Color::Uninit);
}

#[test]
fn flat_opposite_color_matches() {
    assert_eq!(CubieColor::Blue.get_opposite_color(), CubieColor::Green);
    assert_eq!(CubieColor::Orange.get_opposite_color(), CubieColor::Red);
    assert_eq!(CubieColor::White.get_opposite_color(), CubieColor::Yellow);
    assert_eq!(CubieColor::Uninit.get_opposite_color(), CubieColor::Uninit);
    assert_eq!(
        CubieColor::get_opposite_color_from_color(&CubieColor::Green),
        CubieColor::Blue
    );
}

#[test]
fn sticker_equality_is_color_equality() {
    let a = Face::new_from_cubie_color(Color::Red);
    let b = Face::new_from_cubie_color(Color::Red);
    let c = Face::new_from_cubie_color(Color::Blue);
    assert_eq!(a, b);
    assert_ne!(a, c);
    assert_eq!(a.opposite_color(), Color::Orange);
    assert_eq!(Face::new(), Face { color: Color::Uninit });
}

#[test]
fn fresh_corners_have_three_uninit_stickers() {
    let c = Cube::new();
    let corners = c.corners();
    assert_eq!(corners.len(), 8);
    for corner in corners {
        match corner {
            Cubie::Corner(k) => {
                assert_eq!(k.faces.len(), 3);
                for f in &k.faces {
                    assert_eq!(f.color, Color::Uninit);
                }
            }
            _ => panic!("corner slot does not hold a corner cubie"),
        }
    }
}

#[test]
fn fresh_cube_kind_counts() {
    let c = Cube::new();
    let mut centers = 0;
    let mut edges = 0;
    let mut corners = 0;
    for cubie in &c.elements {
        match cubie {
            Cubie::Center(k) => {
                assert_eq!(k.faces.len(), 1);
                centers += 1;
            }
            Cubie::Edge(k) => {
                assert_eq!(k.faces.len(), 2);
                edges += 1;
            }
            Cubie::Corner(k) => {
                assert_eq!(k.faces.len(), 3);
                corners += 1;
            }
        }
    }
    assert_eq!(centers, 6);
    assert_eq!(edges, 12);
    assert_eq!(corners, 8);
}

#[test]
fn top_face_starts_at_slot_zero() {
    let c = Cube::new();
    let f = c.face(FaceKind::Top);
    assert_eq!(f.elements.len(), 9);
    // Same cubie by sticker-sequence equality, and the very same borrow.
    assert_eq!(f.elements[0], &c.elements[0]);
    assert!(std::ptr::eq(f.elements[0], &c.elements[0]));
}

#[test]
fn only_the_core_crossing_row_lacks_a_center() {
    let c = Cube::new();
    let rows = c.rows();
    for (i, row) in rows.iter().enumerate() {
        if i == 4 {
            assert!(row.center.is_none());
        } else {
            assert!(row.center.is_some());
        }
    }
    assert!(!c.row(RowPosition::MiddleCenter).has_center());
    assert!(c.row(RowPosition::TopBack).has_center());
    assert!(c.row(RowPosition::BottomFront).has_center());
}

#[test]
fn only_the_core_crossing_column_lacks_a_center() {
    let c = Cube::new();
    let columns = c.columns();
    for (i, column) in columns.iter().enumerate() {
        if i == 4 {
            assert!(column.center.is_none());
        } else {
            assert!(column.center.is_some());
        }
    }
    assert!(c.column(ColumnPosition::MiddleCenter).center.is_none());
    assert!(c.column(ColumnPosition::FrontRight).center.is_some());
}

#[test]
fn flexible_construction_policy() {
    // Empty input behaves as new(): one Uninit sticker.
    let a = Center::new_from_vec(vec![]);
    assert_eq!(a.faces.len(), 1);
    assert_eq!(a.faces[0].color, Color::Uninit);

    // Over-long input truncates to the first sticker.
    let mut long = vec![Face::new_from_cubie_color(Color::Red)];
    long.extend(vec![Face::new_from_cubie_color(Color::Blue); 9]);
    let a = Center::new_from_vec(long);
    assert_eq!(a.faces.len(), 1);
    assert_eq!(a.faces[0].color, Color::Red);

    // A single sticker is replicated across all three corner slots.
    let a = Corner::new_from_vec(vec![Face::new_from_cubie_color(Color::White)]);
    assert_eq!(a.faces.len(), 3);
    for f in &a.faces {
        assert_eq!(f.color, Color::White);
    }

    // Four stickers truncate to the first three, in order.
    let a = Corner::new_from_vec(vec![
        Face::new_from_cubie_color(Color::Red),
        Face::new_from_cubie_color(Color::Blue),
        Face::new_from_cubie_color(Color::White),
        Face::new_from_cubie_color(Color::Green),
    ]);
    assert_eq!(a.faces.len(), 3);
    assert_eq!(a.faces[0].color, Color::Red);
    assert_eq!(a.faces[1].color, Color::Blue);
    assert_eq!(a.faces[2].color, Color::White);

    // Edges replicate a single sticker and truncate to two.
    let a = Edge::new_from_vec(vec![Face::new_from_cubie_color(Color::Yellow)]);
    assert_eq!(a.faces.len(), 2);
    assert_eq!(a.faces[1].color, Color::Yellow);
    let a = Edge::new_from_vec(vec![
        Face::new_from_cubie_color(Color::Red),
        Face::new_from_cubie_color(Color::Blue),
        Face::new_from_cubie_color(Color::White),
    ]);
    assert_eq!(a.faces.len(), 2);
    assert_eq!(a.faces[0].color, Color::Red);
    assert_eq!(a.faces[1].color, Color::Blue);
}

#[test]
fn fixed_construction_round_trips() {
    let s0 = Face::new_from_cubie_color(Color::Red);
    let s1 = Face::new_from_cubie_color(Color::White);
    let s2 = Face::new_from_cubie_color(Color::Blue);
    let corner = Corner::new_from_array([s0, s1, s2]);
    assert_eq!(corner.faces(), &vec![s0, s1, s2]);

    let e0 = Face::new_from_cubie_color(Color::Green);
    let e1 = Face::new_from_cubie_color(Color::Orange);
    let edge = Edge::new_from_array([e0, e1]);
    assert_eq!(edge.faces(), &vec![e0, e1]);
}

#[test]
fn accessors_are_idempotent() {
    let c = Cube::new();

    let corners1 = c.corners();
    let corners2 = c.corners();
    for j in 0..8 {
        assert_eq!(corners1[j], corners2[j]);
        assert!(std::ptr::eq(corners1[j], corners2[j]));
    }

    let rows1 = c.rows();
    let rows2 = c.rows();
    for j in 0..9 {
        assert!(std::ptr::eq(rows1[j].left, rows2[j].left));
        assert!(std::ptr::eq(rows1[j].right, rows2[j].right));
        assert_eq!(rows1[j].center.is_some(), rows2[j].center.is_some());
    }

    let columns1 = c.columns();
    let columns2 = c.columns();
    for j in 0..9 {
        assert!(std::ptr::eq(columns1[j].top, columns2[j].top));
        assert!(std::ptr::eq(columns1[j].bottom, columns2[j].bottom));
        assert_eq!(columns1[j].center.is_some(), columns2[j].center.is_some());
    }

    let face1 = c.face(FaceKind::Left);
    let face2 = c.face(FaceKind::Left);
    for j in 0..9 {
        assert_eq!(face1.elements[j], face2.elements[j]);
        assert!(std::ptr::eq(face1.elements[j], face2.elements[j]));
    }
}

#[test]
fn named_corner_lookup_matches_raw_order() {
    let c = Cube::new();
    let corners = c.corners();
    assert!(std::ptr::eq(c.corner(CornerPosition::TopBackLeft), corners[0]));
    assert!(std::ptr::eq(c.corner(CornerPosition::TopBackRight), corners[1]));
    assert!(std::ptr::eq(c.corner(CornerPosition::TopFrontLeft), corners[2]));
    assert!(std::ptr::eq(c.corner(CornerPosition::TopFrontRight), corners[3]));
    assert!(std::ptr::eq(c.corner(CornerPosition::BottomBackLeft), corners[4]));
    assert!(std::ptr::eq(c.corner(CornerPosition::BottomBackRight), corners[5]));
    assert!(std::ptr::eq(c.corner(CornerPosition::BottomFrontLeft), corners[6]));
    assert!(std::ptr::eq(c.corner(CornerPosition::BottomFrontRight), corners[7]));
}

#[test]
fn flat_cube_corners_and_views() {
    let c = rustytwisty::cube::Cube::new();
    let corners = c.get_corners();
    assert_eq!(corners.len(), 8);
    for (j, slot) in [0, 2, 6, 8, 17, 19, 23, 25].into_iter().enumerate() {
        assert!(std::ptr::eq(corners[j], &c.elements[slot]));
        assert!(matches!(corners[j], rustytwisty::cube::Cubie::Corner(_)));
    }

    let bottom = c.get_face(CubeFaceKind::Bottom);
    assert!(std::ptr::eq(bottom.elements[0], &c.elements[17]));
    assert!(std::ptr::eq(bottom.elements[8], &c.elements[25]));

    let rebuilt = CubeFace::new_from_array(bottom.elements);
    for j in 0..9 {
        assert!(std::ptr::eq(rebuilt.elements[j], bottom.elements[j]));
    }
}

#[test]
fn row_and_column_builders_keep_their_parts() {
    let left = Cubie::Edge(Edge::new());
    let mid = Cubie::Center(Center::new());
    let right = Cubie::Edge(Edge::new());

    let row = Row::new(&left, Some(&mid), &right);
    assert!(std::ptr::eq(row.left, &left));
    assert!(std::ptr::eq(row.center.unwrap(), &mid));
    assert!(std::ptr::eq(row.right, &right));
    assert!(Row::new(&left, Some(&mid), &right).has_center());
    assert!(!Row::new(&left, None, &right).has_center());

    let column = Column::new(&left, None, &right);
    assert!(std::ptr::eq(column.top, &left));
    assert!(column.center.is_none());
    assert!(std::ptr::eq(column.bottom, &right));
}

#[test]
fn columns_span_top_and_bottom_layers_once_each() {
    let c = Cube::new();
    let columns = c.columns();
    for (i, column) in columns.iter().enumerate() {
        // Column i runs from top-layer slot i straight down to bottom-layer
        // slot 17 + i: no slot is shared between columns and none is skipped.
        assert!(std::ptr::eq(column.top, &c.elements[i]));
        assert!(std::ptr::eq(column.bottom, &c.elements[17 + i]));
    }
}

#[test]
fn views_borrow_without_copying() {
    let c = Cube::new();
    // The row and column crossing each slot hand back borrows of the very
    // same storage, never copies.
    let row = c.row(RowPosition::TopBack);
    assert!(std::ptr::eq(row.left, &c.elements[0]));
    assert!(std::ptr::eq(row.center.unwrap(), &c.elements[1]));
    assert!(std::ptr::eq(row.right, &c.elements[2]));

    let column = c.column(ColumnPosition::BackLeft);
    assert!(std::ptr::eq(column.top, &c.elements[0]));
    assert!(std::ptr::eq(column.center.unwrap(), &c.elements[9]));
    assert!(std::ptr::eq(column.bottom, &c.elements[17]));
}

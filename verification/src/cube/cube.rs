//! Cube assembly and index geometry: the 26-slot storage and its read-only
//! view projections (faces, rows, columns, corners).

use crate::cube::cubie::{BuildCubie, Center, Corner, Cubie, Edge};
use vstd::prelude::*;

verus! {

/// The 9 cubies visible on one outer plane of the cube, selected by
/// borrowing from the cube's single owned storage.
pub struct Face<'a> {
    pub elements: [&'a Cubie; 9],
}

impl<'a> Face<'a> {
    pub fn new_from_array(arr: [&'a Cubie; 9]) -> (r: Self)
        ensures
            r.elements@ == arr@,
    {
        Self { elements: arr }
    }
}

/// The six outer planes of the cube.
pub enum FaceKind {
    Top,
    Left,
    Right,
    Front,
    Back,
    Bottom,
}

/// A row of cubies. Each row has a left, right, and center, though the
/// center middle row has the turning mechanism instead. For this reason,
/// center is an `Option`.
pub struct Row<'a> {
    pub center: Option<&'a Cubie>,
    pub left: &'a Cubie,
    pub right: &'a Cubie,
}

impl<'a> Row<'a> {
    pub fn new(left: &'a Cubie, center: Option<&'a Cubie>, right: &'a Cubie) -> (r: Self)
        ensures
            r.left == left,
            r.center == center,
            r.right == right,
    {
        Row { left, center, right }
    }

    /// Whether this row has a cubie in its center slot; false exactly for
    /// the row crossing the mechanical core.
    pub fn has_center(self) -> (r: bool)
        ensures
            r == (self.center is Some),
    {
        self.center.is_some()
    }
}

/// A column of cubies. Each column has a top, bottom, and center, though not
/// every column will have a center: the column crossing the mechanical core
/// has none. To represent this, the center field is an `Option`.
pub struct Column<'a> {
    pub center: Option<&'a Cubie>,
    pub top: &'a Cubie,
    pub bottom: &'a Cubie,
}

impl<'a> Column<'a> {
    pub fn new(top: &'a Cubie, center: Option<&'a Cubie>, bottom: &'a Cubie) -> (r: Self)
        ensures
            r.top == top,
            r.center == center,
            r.bottom == bottom,
    {
        Column { top, center, bottom }
    }
}

/// The 8 corner positions, named: four on the top layer, four on the bottom.
pub enum CornerPosition {
    TopBackLeft,
    TopBackRight,
    TopFrontLeft,
    TopFrontRight,
    BottomBackLeft,
    BottomBackRight,
    BottomFrontLeft,
    BottomFrontRight,
}

/// The 9 column positions, named by depth (back to front) and breadth
/// (left to right).
pub enum ColumnPosition {
    BackLeft,
    BackMiddle,
    BackRight,
    MiddleLeft,
    MiddleCenter,
    MiddleRight,
    FrontLeft,
    FrontMiddle,
    FrontRight,
}

/// The 9 row positions, named by layer (top to bottom) and depth
/// (back to front).
pub enum RowPosition {
    TopBack,
    TopCenter,
    TopFront,
    MiddleBack,
    MiddleCenter,
    MiddleFront,
    BottomBack,
    BottomCenter,
    BottomFront,
}

/// The 8 slots of the 26-slot storage that hold corner cubies.
pub open spec fn is_corner_slot(i: int) -> bool {
    i == 0 || i == 2 || i == 6 || i == 8 || i == 17 || i == 19 || i == 23 || i == 25
}

/// The 6 slots that hold center cubies, one per outer face.
pub open spec fn is_center_slot(i: int) -> bool {
    i == 4 || i == 10 || i == 12 || i == 13 || i == 15 || i == 21
}

/// The 12 remaining slots hold edge cubies.
pub open spec fn is_edge_slot(i: int) -> bool {
    0 <= i < 26 && !is_corner_slot(i) && !is_center_slot(i)
}

/// The cubie stored at slot `i` has the kind the fixed layout assigns to
/// that slot, and owns its kind's exact sticker count.
pub open spec fn slot_wf(c: Cubie, i: int) -> bool {
    &&& c.wf()
    &&& is_corner_slot(i) ==> c is Corner
    &&& is_center_slot(i) ==> c is Center
    &&& is_edge_slot(i) ==> c is Edge
}

/// The slot, in canonical corner order, of each of the 8 corner cubies:
/// top-back-left, top-back-right, top-front-left, top-front-right, then the
/// same four positions on the bottom layer.
pub open spec fn corner_slot_of(j: int) -> int {
    seq![0, 2, 6, 8, 17, 19, 23, 25][j]
}

/// The raw index, in canonical corner order, of a named corner position.
pub open spec fn corner_position_index(pos: CornerPosition) -> int {
    match pos {
        CornerPosition::TopBackLeft => 0,
        CornerPosition::TopBackRight => 1,
        CornerPosition::TopFrontLeft => 2,
        CornerPosition::TopFrontRight => 3,
        CornerPosition::BottomBackLeft => 4,
        CornerPosition::BottomBackRight => 5,
        CornerPosition::BottomFrontLeft => 6,
        CornerPosition::BottomFrontRight => 7,
    }
}

/// The slots of row `pos`, as (left, center, right); the center slot is
/// `None` exactly for the row crossing the mechanical core.
pub open spec fn row_slots(pos: int) -> (int, Option<int>, int) {
    if pos == 0 {
        (0, Some(1), 2)
    } else if pos == 1 {
        (3, Some(4), 5)
    } else if pos == 2 {
        (6, Some(7), 8)
    } else if pos == 3 {
        (9, Some(10), 11)
    } else if pos == 4 {
        (12, None, 13)
    } else if pos == 5 {
        (14, Some(15), 16)
    } else if pos == 6 {
        (17, Some(18), 19)
    } else if pos == 7 {
        (20, Some(21), 22)
    } else {
        (23, Some(24), 25)
    }
}

/// The raw index of a named row position.
pub open spec fn row_position_index(pos: RowPosition) -> int {
    match pos {
        RowPosition::TopBack => 0,
        RowPosition::TopCenter => 1,
        RowPosition::TopFront => 2,
        RowPosition::MiddleBack => 3,
        RowPosition::MiddleCenter => 4,
        RowPosition::MiddleFront => 5,
        RowPosition::BottomBack => 6,
        RowPosition::BottomCenter => 7,
        RowPosition::BottomFront => 8,
    }
}

/// The slots of column `pos`, as (top, center, bottom); the center slot is
/// `None` exactly for the column crossing the mechanical core.
pub open spec fn column_slots(pos: int) -> (int, Option<int>, int) {
    if pos == 0 {
        (0, Some(9), 17)
    } else if pos == 1 {
        (1, Some(10), 18)
    } else if pos == 2 {
        (2, Some(11), 19)
    } else if pos == 3 {
        (3, Some(12), 20)
    } else if pos == 4 {
        (4, None, 21)
    } else if pos == 5 {
        (5, Some(13), 22)
    } else if pos == 6 {
        (6, Some(14), 23)
    } else if pos == 7 {
        (7, Some(15), 24)
    } else {
        (8, Some(16), 25)
    }
}

/// The raw index of a named column position.
pub open spec fn column_position_index(pos: ColumnPosition) -> int {
    match pos {
        ColumnPosition::BackLeft => 0,
        ColumnPosition::BackMiddle => 1,
        ColumnPosition::BackRight => 2,
        ColumnPosition::MiddleLeft => 3,
        ColumnPosition::MiddleCenter => 4,
        ColumnPosition::MiddleRight => 5,
        ColumnPosition::FrontLeft => 6,
        ColumnPosition::FrontMiddle => 7,
        ColumnPosition::FrontRight => 8,
    }
}

/// The slots, in raster order, of the 9 cubies lying on each face's plane.
pub open spec fn face_slots(s: FaceKind) -> Seq<int> {
    match s {
        FaceKind::Top => seq![0, 1, 2, 3, 4, 5, 6, 7, 8],
        FaceKind::Left => seq![0, 3, 6, 9, 12, 14, 17, 20, 23],
        FaceKind::Right => seq![2, 5, 8, 11, 13, 16, 19, 22, 25],
        FaceKind::Front => seq![6, 7, 8, 14, 15, 16, 23, 24, 25],
        FaceKind::Back => seq![0, 1, 2, 9, 10, 11, 17, 18, 19],
        FaceKind::Bottom => seq![17, 18, 19, 20, 21, 22, 23, 24, 25],
    }
}

/// Every face table names 9 slots of the 26-slot storage.
pub proof fn lemma_face_slots_in_range(s: FaceKind)
    ensures
        face_slots(s).len() == 9,
        forall|j: int| 0 <= j < 9 ==> 0 <= #[trigger] face_slots(s)[j] < 26,
{
}

/// Every row table entry names a slot of the 26-slot storage.
pub proof fn lemma_row_slots_in_range(pos: int)
    requires
        0 <= pos < 9,
    ensures
        0 <= row_slots(pos).0 < 26,
        0 <= row_slots(pos).2 < 26,
        row_slots(pos).1 matches Some(mid) ==> 0 <= mid < 26,
{
}

/// Every column table entry names a slot of the 26-slot storage.
pub proof fn lemma_column_slots_in_range(pos: int)
    requires
        0 <= pos < 9,
    ensures
        0 <= column_slots(pos).0 < 26,
        0 <= column_slots(pos).2 < 26,
        column_slots(pos).1 matches Some(mid) ==> 0 <= mid < 26,
{
}

/// Columns read the layout symmetrically to rows: column `pos` starts at
/// top-layer slot `pos` and ends at bottom-layer slot `17 + pos`. So the
/// nine columns reference each of the nine top slots and each of the nine
/// bottom slots exactly once, and no two columns share an end.
pub proof fn lemma_column_ends(pos: int)
    requires
        0 <= pos < 9,
    ensures
        column_slots(pos).0 == pos,
        column_slots(pos).2 == 17 + pos,
{
}

/// A 3x3 Twisty Puzzle Cube
///
/// Models each individual "subcube" known as a cubie and provides read-only
/// views (faces, rows, columns, corners) over one fixed 26-slot storage.
/// The geometric center of the middle layer holds the mechanical core, not
/// a cubie, so the middle layer contributes only 8 slots.
pub struct Cube {
    pub elements: Vec<Cubie>,
}

/// `r` is the row of `c` at raw position `pos`: its left and right cubies
/// are borrowed from the slots the fixed layout assigns, and its center is
/// present with the assigned slot's cubie exactly where the layout has a
/// center slot.
pub open spec fn row_selects(r: Row, c: Cube, pos: int) -> bool {
    &&& r.left == c.elements@[row_slots(pos).0]
    &&& r.right == c.elements@[row_slots(pos).2]
    &&& (r.center is Some) <==> (row_slots(pos).1 is Some)
    &&& r.center matches Some(mid) ==> row_slots(pos).1 matches Some(s) && mid == c.elements@[s]
}

/// `r` is the column of `c` at raw position `pos`, with the same reading as
/// `row_selects`, on the vertical axis.
pub open spec fn column_selects(r: Column, c: Cube, pos: int) -> bool {
    &&& r.top == c.elements@[column_slots(pos).0]
    &&& r.bottom == c.elements@[column_slots(pos).2]
    &&& (r.center is Some) <==> (column_slots(pos).1 is Some)
    &&& r.center matches Some(mid) ==> column_slots(pos).1 matches Some(s) && mid == c.elements@[s]
}

/// `f` is the face view of `c` for kind `s`: its 9 elements are borrowed,
/// in raster order, from the slots the fixed layout assigns to that plane.
pub open spec fn face_selects(f: Face, c: Cube, s: FaceKind) -> bool {
    forall|j: int| 0 <= j < 9 ==> #[trigger] f.elements@[j] == c.elements@[face_slots(s)[j]]
}

/// `r` is the corner selection of `c`: its 8 elements are borrowed, in
/// canonical corner order, from the 8 corner slots.
pub open spec fn corners_select(r: Seq<&Cubie>, c: Cube) -> bool {
    &&& r.len() == 8
    &&& forall|j: int| 0 <= j < 8 ==> #[trigger] r[j] == c.elements@[corner_slot_of(j)]
}

impl Cube {
    /// The storage holds exactly 26 cubies and every slot holds a well
    /// formed cubie of the kind the fixed layout assigns to it.
    pub open spec fn wf(self) -> bool {
        &&& self.elements@.len() == 26
        &&& forall|i: int| 0 <= i < 26 ==> slot_wf(#[trigger] self.elements@[i], i)
    }

    /// Initializes a 3x3 Cube with elements in the form of an array with
    /// elements in three slices in the following order:
    ///
    /// left to right, back to front, and top to bottom
    ///
    ///  Top     Middle    Bottom
    /// 0 1 2    9 10 11  17 18 19
    /// 3 4 5   12    13  20 21 22
    /// 6 7 8   14 15 16  23 24 25
    ///
    /// where 0 would be the top left corner cubie in the back. Every sticker
    /// of every cubie starts uninitialized.
    pub fn new() -> (r: Self)
        ensures
            r.wf(),
            r.elements@.len() == 26,
            forall|i: int| 0 <= i < 26 ==> (#[trigger] r.elements@[i]).faces_spec()
                == crate::cube::cubie::uniform_faces(
                    r.elements@[i].arity_spec(),
                    crate::cube::cubie::uninit_face(),
                ),
    {
        let mut elements: Vec<Cubie> = Vec::new();
        elements.push(Cubie::Corner(Corner::new()));  // Top slice (9 cubies)
        elements.push(Cubie::Edge(Edge::new()));
        elements.push(Cubie::Corner(Corner::new()));
        elements.push(Cubie::Edge(Edge::new()));
        elements.push(Cubie::Center(Center::new()));
        elements.push(Cubie::Edge(Edge::new()));
        elements.push(Cubie::Corner(Corner::new()));
        elements.push(Cubie::Edge(Edge::new()));
        elements.push(Cubie::Corner(Corner::new()));
        elements.push(Cubie::Edge(Edge::new()));  // Middle slice (8 cubies)
        elements.push(Cubie::Center(Center::new()));
        elements.push(Cubie::Edge(Edge::new()));
        elements.push(Cubie::Center(Center::new()));
        elements.push(Cubie::Center(Center::new()));
        elements.push(Cubie::Edge(Edge::new()));
        elements.push(Cubie::Center(Center::new()));
        elements.push(Cubie::Edge(Edge::new()));
        elements.push(Cubie::Corner(Corner::new()));  // Bottom slice (9 cubies)
        elements.push(Cubie::Edge(Edge::new()));
        elements.push(Cubie::Corner(Corner::new()));
        elements.push(Cubie::Edge(Edge::new()));
        elements.push(Cubie::Center(Center::new()));
        elements.push(Cubie::Edge(Edge::new()));
        elements.push(Cubie::Corner(Corner::new()));
        elements.push(Cubie::Edge(Edge::new()));
        elements.push(Cubie::Corner(Corner::new()));
        Cube { elements }
    }

    /// The corner cubie at raw corner index `pos`, in canonical corner
    /// order. Indices past the corner count are programming defects and are
    /// ruled out by the precondition.
    pub fn corner_raw(&self, pos: usize) -> (r: &Cubie)
        requires
            self.wf(),
            pos < 8,
        ensures
            r == self.elements@[corner_slot_of(pos as int)],
    {
        match pos {
            0 => &self.elements[0],
            1 => &self.elements[2],
            2 => &self.elements[6],
            3 => &self.elements[8],
            4 => &self.elements[17],
            5 => &self.elements[19],
            6 => &self.elements[23],
            _ => &self.elements[25],
        }
    }

    /// The corner cubie at a named corner position.
    pub fn corner(&self, pos: CornerPosition) -> (r: &Cubie)
        requires
            self.wf(),
        ensures
            r == self.elements@[corner_slot_of(corner_position_index(pos))],
    {
        match pos {
            CornerPosition::TopBackLeft => Cube::corner_raw(self, 0),
            CornerPosition::TopBackRight => Cube::corner_raw(self, 1),
            CornerPosition::TopFrontLeft => Cube::corner_raw(self, 2),
            CornerPosition::TopFrontRight => Cube::corner_raw(self, 3),
            CornerPosition::BottomBackLeft => Cube::corner_raw(self, 4),
            CornerPosition::BottomBackRight => Cube::corner_raw(self, 5),
            CornerPosition::BottomFrontLeft => Cube::corner_raw(self, 6),
            CornerPosition::BottomFrontRight => Cube::corner_raw(self, 7),
        }
    }

    /// All 8 corner cubies, in canonical corner order.
    pub fn corners(&self) -> (r: [&Cubie; 8])
        requires
            self.wf(),
        ensures
            corners_select(r@, *self),
    {
        [
            Cube::corner_raw(self, 0),
            Cube::corner_raw(self, 1),
            Cube::corner_raw(self, 2),
            Cube::corner_raw(self, 3),
            Cube::corner_raw(self, 4),
            Cube::corner_raw(self, 5),
            Cube::corner_raw(self, 6),
            Cube::corner_raw(self, 7),
        ]
    }

    /// The row at raw row index `pos`. Indices past the row count are
    /// programming defects and are ruled out by the precondition.
    pub fn row_raw(&self, pos: usize) -> (r: Row<'_>)
        requires
            self.wf(),
            pos < 9,
        ensures
            row_selects(r, *self, pos as int),
    {
        match pos {
            0 => Row {
                left: &self.elements[0],
                center: Some(&self.elements[1]),
                right: &self.elements[2],
            },
            1 => Row {
                left: &self.elements[3],
                center: Some(&self.elements[4]),
                right: &self.elements[5],
            },
            2 => Row {
                left: &self.elements[6],
                center: Some(&self.elements[7]),
                right: &self.elements[8],
            },
            3 => Row {
                left: &self.elements[9],
                center: Some(&self.elements[10]),
                right: &self.elements[11],
            },
            4 => Row {
                left: &self.elements[12],
                center: None,
                right: &self.elements[13],
            },
            5 => Row {
                left: &self.elements[14],
                center: Some(&self.elements[15]),
                right: &self.elements[16],
            },
            6 => Row {
                left: &self.elements[17],
                center: Some(&self.elements[18]),
                right: &self.elements[19],
            },
            7 => Row {
                left: &self.elements[20],
                center: Some(&self.elements[21]),
                right: &self.elements[22],
            },
            _ => Row {
                left: &self.elements[23],
                center: Some(&self.elements[24]),
                right: &self.elements[25],
            },
        }
    }

    /// The row at a named row position.
    pub fn row(&self, pos: RowPosition) -> (r: Row<'_>)
        requires
            self.wf(),
        ensures
            row_selects(r, *self, row_position_index(pos)),
    {
        match pos {
            RowPosition::TopBack => Cube::row_raw(self, 0),
            RowPosition::TopCenter => Cube::row_raw(self, 1),
            RowPosition::TopFront => Cube::row_raw(self, 2),
            RowPosition::MiddleBack => Cube::row_raw(self, 3),
            RowPosition::MiddleCenter => Cube::row_raw(self, 4),
            RowPosition::MiddleFront => Cube::row_raw(self, 5),
            RowPosition::BottomBack => Cube::row_raw(self, 6),
            RowPosition::BottomCenter => Cube::row_raw(self, 7),
            RowPosition::BottomFront => Cube::row_raw(self, 8),
        }
    }

    /// All 9 rows, by raw row index.
    pub fn rows(&self) -> (r: [Row<'_>; 9])
        requires
            self.wf(),
        ensures
            forall|j: int| 0 <= j < 9 ==> row_selects(#[trigger] r@[j], *self, j),
    {
        [
            Cube::row_raw(self, 0),
            Cube::row_raw(self, 1),
            Cube::row_raw(self, 2),
            Cube::row_raw(self, 3),
            Cube::row_raw(self, 4),
            Cube::row_raw(self, 5),
            Cube::row_raw(self, 6),
            Cube::row_raw(self, 7),
            Cube::row_raw(self, 8),
        ]
    }

    /// The column at raw column index `pos`. Indices past the column count
    /// are programming defects and are ruled out by the precondition.
    pub fn column_raw(&self, pos: usize) -> (r: Column<'_>)
        requires
            self.wf(),
            pos < 9,
        ensures
            column_selects(r, *self, pos as int),
    {
        match pos {
            0 => Column {
                top: &self.elements[0],
                center: Some(&self.elements[9]),
                bottom: &self.elements[17],
            },
            1 => Column {
                top: &self.elements[1],
                center: Some(&self.elements[10]),
                bottom: &self.elements[18],
            },
            2 => Column {
                top: &self.elements[2],
                center: Some(&self.elements[11]),
                bottom: &self.elements[19],
            },
            3 => Column {
                top: &self.elements[3],
                center: Some(&self.elements[12]),
                bottom: &self.elements[20],
            },
            4 => Column {
                top: &self.elements[4],
                center: None,
                bottom: &self.elements[21],
            },
            5 => Column {
                top: &self.elements[5],
                center: Some(&self.elements[13]),
                bottom: &self.elements[22],
            },
            6 => Column {
                top: &self.elements[6],
                center: Some(&self.elements[14]),
                bottom: &self.elements[23],
            },
            7 => Column {
                top: &self.elements[7],
                center: Some(&self.elements[15]),
                bottom: &self.elements[24],
            },
            _ => Column {
                top: &self.elements[8],
                center: Some(&self.elements[16]),
                bottom: &self.elements[25],
            },
        }
    }

    /// The column at a named column position.
    pub fn column(&self, pos: ColumnPosition) -> (r: Column<'_>)
        requires
            self.wf(),
        ensures
            column_selects(r, *self, column_position_index(pos)),
    {
        match pos {
            ColumnPosition::BackLeft => Cube::column_raw(self, 0),
            ColumnPosition::BackMiddle => Cube::column_raw(self, 1),
            ColumnPosition::BackRight => Cube::column_raw(self, 2),
            ColumnPosition::MiddleLeft => Cube::column_raw(self, 3),
            ColumnPosition::MiddleCenter => Cube::column_raw(self, 4),
            ColumnPosition::MiddleRight => Cube::column_raw(self, 5),
            ColumnPosition::FrontLeft => Cube::column_raw(self, 6),
            ColumnPosition::FrontMiddle => Cube::column_raw(self, 7),
            ColumnPosition::FrontRight => Cube::column_raw(self, 8),
        }
    }

    /// All 9 columns, by raw column index.
    pub fn columns(&self) -> (r: [Column<'_>; 9])
        requires
            self.wf(),
        ensures
            forall|j: int| 0 <= j < 9 ==> column_selects(#[trigger] r@[j], *self, j),
    {
        [
            Cube::column_raw(self, 0),
            Cube::column_raw(self, 1),
            Cube::column_raw(self, 2),
            Cube::column_raw(self, 3),
            Cube::column_raw(self, 4),
            Cube::column_raw(self, 5),
            Cube::column_raw(self, 6),
            Cube::column_raw(self, 7),
            Cube::column_raw(self, 8),
        ]
    }

    /// The 9 cubies on the plane of face `s`, in raster order, borrowed
    /// from this cube's storage.
    pub fn face(&self, s: FaceKind) -> (r: Face<'_>)
        requires
            self.wf(),
        ensures
            face_selects(r, *self, s),
    {
        match s {
            FaceKind::Top => Face::new_from_array([
                &self.elements[0], &self.elements[1], &self.elements[2],
                &self.elements[3], &self.elements[4], &self.elements[5],
                &self.elements[6], &self.elements[7], &self.elements[8],
            ]),
            FaceKind::Left => Face::new_from_array([
                &self.elements[0], &self.elements[3], &self.elements[6],
                &self.elements[9], &self.elements[12], &self.elements[14],
                &self.elements[17], &self.elements[20], &self.elements[23],
            ]),
            FaceKind::Right => Face::new_from_array([
                &self.elements[2], &self.elements[5], &self.elements[8],
                &self.elements[11], &self.elements[13], &self.elements[16],
                &self.elements[19], &self.elements[22], &self.elements[25],
            ]),
            FaceKind::Front => Face::new_from_array([
                &self.elements[6], &self.elements[7], &self.elements[8],
                &self.elements[14], &self.elements[15], &self.elements[16],
                &self.elements[23], &self.elements[24], &self.elements[25],
            ]),
            FaceKind::Back => Face::new_from_array([
                &self.elements[0], &self.elements[1], &self.elements[2],
                &self.elements[9], &self.elements[10], &self.elements[11],
                &self.elements[17], &self.elements[18], &self.elements[19],
            ]),
            FaceKind::Bottom => Face::new_from_array([
                &self.elements[17], &self.elements[18], &self.elements[19],
                &self.elements[20], &self.elements[21], &self.elements[22],
                &self.elements[23], &self.elements[24], &self.elements[25],
            ]),
        }
    }
}

/// Exactly one of the 9 rows lacks a center cubie: the row at the position
/// crossing the mechanical core (MiddleCenter, raw index 4). Every other
/// row has a present center.
pub proof fn lemma_row_center_absence(pos: int)
    requires
        0 <= pos < 9,
    ensures
        (row_slots(pos).1 is None) <==> pos == row_position_index(RowPosition::MiddleCenter),
{
}

/// Exactly one of the 9 columns lacks a center cubie: the column at the
/// position crossing the mechanical core (MiddleCenter, raw index 4). Every
/// other column has a present center.
pub proof fn lemma_column_center_absence(pos: int)
    requires
        0 <= pos < 9,
    ensures
        (column_slots(pos).1 is None) <==> pos == column_position_index(
            ColumnPosition::MiddleCenter,
        ),
{
}

/// Reading the corners of one cube twice yields equal results: any two
/// selections meeting `corners`'s contract for the same cube agree.
pub proof fn lemma_corners_deterministic(c: Cube, r1: Seq<&Cubie>, r2: Seq<&Cubie>)
    requires
        corners_select(r1, c),
        corners_select(r2, c),
    ensures
        r1 =~= r2,
{
}

/// Reading one row of one cube twice yields equal results: any two rows
/// meeting `row_raw`'s contract for the same cube and position agree in
/// every field.
pub proof fn lemma_row_deterministic(c: Cube, pos: int, r1: Row, r2: Row)
    requires
        row_selects(r1, c, pos),
        row_selects(r2, c, pos),
    ensures
        r1.left == r2.left,
        r1.center == r2.center,
        r1.right == r2.right,
{
}

/// Reading one column of one cube twice yields equal results: any two
/// columns meeting `column_raw`'s contract for the same cube and position
/// agree in every field.
pub proof fn lemma_column_deterministic(c: Cube, pos: int, r1: Column, r2: Column)
    requires
        column_selects(r1, c, pos),
        column_selects(r2, c, pos),
    ensures
        r1.top == r2.top,
        r1.center == r2.center,
        r1.bottom == r2.bottom,
{
}

/// Reading one face of one cube twice yields equal results: any two face
/// views meeting `face`'s contract for the same cube and kind agree.
pub proof fn lemma_face_deterministic(c: Cube, s: FaceKind, f1: Face, f2: Face)
    requires
        face_selects(f1, c, s),
        face_selects(f2, c, s),
    ensures
        f1.elements@ =~= f2.elements@,
{
}

} // verus!

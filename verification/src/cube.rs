//! Flat cube model: colors, stickers, the three cubie kinds, and the
//! assembled 26-cubie cube with its face views.

pub mod cube;
pub mod cubie;

use vstd::prelude::*;

verus! {

/// Standard colors for 6 sided twisty puzzles, plus an uninitialized value.
#[derive(Copy, Clone, Debug, PartialEq, Eq, Structural)]
pub enum CubieColor {
    Blue,
    Green,
    Orange,
    Red,
    White,
    Yellow,
    Uninit,
}

impl CubieColor {
    /// The fixed, involutive opposite-color pairing: Blue-Green, Orange-Red,
    /// White-Yellow; Uninit has no defined opposite and pairs with itself.
    pub open spec fn opposite_spec(self) -> Self {
        match self {
            CubieColor::Blue => CubieColor::Green,
            CubieColor::Green => CubieColor::Blue,
            CubieColor::Orange => CubieColor::Red,
            CubieColor::Red => CubieColor::Orange,
            CubieColor::White => CubieColor::Yellow,
            CubieColor::Yellow => CubieColor::White,
            CubieColor::Uninit => CubieColor::Uninit,
        }
    }

    pub fn new() -> (r: Self)
        ensures
            r == CubieColor::Uninit,
    {
        CubieColor::Uninit
    }

    /// Returns the standardized opposite color of a CubieColor instance
    pub fn get_opposite_color(&self) -> (r: Self)
        ensures
            r == self.opposite_spec(),
    {
        CubieColor::get_opposite_color_from_color(self)
    }

    /// Returns the standardized opposite color of a CubieColor value
    pub fn get_opposite_color_from_color(color: &Self) -> (r: Self)
        ensures
            r == color.opposite_spec(),
    {
        match color {
            CubieColor::Blue => CubieColor::Green,
            CubieColor::Green => CubieColor::Blue,
            CubieColor::Orange => CubieColor::Red,
            CubieColor::Red => CubieColor::Orange,
            CubieColor::White => CubieColor::Yellow,
            CubieColor::Yellow => CubieColor::White,
            CubieColor::Uninit => CubieColor::Uninit,
        }
    }
}

/// The opposite-color pairing is an involution: applying it twice returns
/// the starting color, for every color including Uninit.
pub proof fn lemma_opposite_color_involutive(c: CubieColor)
    ensures
        c.opposite_spec().opposite_spec() == c,
{
}

/// One colored facet attached to one side of one cubie. Stickers are equal
/// exactly when their colors are equal.
#[derive(Copy, Clone, Debug, PartialEq, Eq, Structural)]
pub struct CubieFace {
    pub color: CubieColor,
}

impl CubieFace {
    pub fn new() -> (r: Self)
        ensures
            r.color == CubieColor::Uninit,
    {
        Self { color: CubieColor::new() }
    }

    pub fn new_from_cubie_color(color: CubieColor) -> (r: Self)
        ensures
            r.color == color,
    {
        Self { color }
    }

    pub fn get_opposite_color(&self) -> (r: CubieColor)
        ensures
            r == self.color.opposite_spec(),
    {
        CubieColor::get_opposite_color(&self.color)
    }
}

/// The uninitialized sticker: the value every fresh cubie's slots carry.
pub open spec fn uninit_face() -> CubieFace {
    CubieFace { color: CubieColor::Uninit }
}

/// `n` copies of the sticker `f`.
pub open spec fn uniform_faces(n: nat, f: CubieFace) -> Seq<CubieFace> {
    Seq::new(n, |i: int| f)
}

/// The reconciliation policy for building a cubie of sticker count `arity`
/// from an input sequence of unconstrained length:
/// - empty input: all `arity` slots uninitialized;
/// - shorter than `arity`: the first input sticker replicated over all slots;
/// - otherwise: the first `arity` input stickers, in order.
pub open spec fn reconciled_faces(input: Seq<CubieFace>, arity: nat) -> Seq<CubieFace> {
    if input.len() == 0 {
        uniform_faces(arity, uninit_face())
    } else if input.len() < arity {
        uniform_faces(arity, input[0])
    } else {
        input.subrange(0, arity as int)
    }
}

/// Constructor capability shared by the three cubie kinds: a fresh cubie
/// carries its kind's full sticker count, every slot uninitialized.
pub trait CubieHelper: Sized {
    /// How many stickers a cubie of this kind owns, fixed for its lifetime.
    spec fn arity_spec() -> nat;

    /// The owned sticker sequence, in slot order.
    spec fn faces_spec(&self) -> Seq<CubieFace>;

    fn new() -> (r: Self)
        ensures
            r.faces_spec() == uniform_faces(Self::arity_spec(), uninit_face()),
    ;
}

/// A cubie is an individual "subcube" of a twisty cube puzzle. A cubie can
/// have from one to three colored faces depending on if it is a corner cubie
/// (3 colored faces), edge cubie (2 colored faces), or center cubie (1
/// colored face).
///
/// The three kinds are closed variants of this one type, so cubies of any
/// kind can be stored uniformly and recovered by pattern matching.
#[derive(Clone, Debug, PartialEq, Eq)]
pub enum Cubie {
    Center(CenterCubie),
    Corner(CornerCubie),
    Edge(EdgeCubie),
}

impl Cubie {
    /// The sticker sequence of the underlying cubie, whatever its kind.
    pub open spec fn faces_spec(self) -> Seq<CubieFace> {
        match self {
            Cubie::Center(c) => c.faces@,
            Cubie::Corner(c) => c.faces@,
            Cubie::Edge(c) => c.faces@,
        }
    }

    /// The sticker count this cubie's kind fixes: 1, 2 or 3.
    pub open spec fn arity_spec(self) -> nat {
        match self {
            Cubie::Center(_) => 1,
            Cubie::Corner(_) => 3,
            Cubie::Edge(_) => 2,
        }
    }

    /// A cubie is well formed when it owns exactly its kind's sticker count.
    pub open spec fn wf(self) -> bool {
        self.faces_spec().len() == self.arity_spec()
    }
}

/// A center cubie: exactly 1 sticker.
#[derive(Clone, Debug, PartialEq, Eq)]
pub struct CenterCubie {
    pub faces: Vec<CubieFace>,
}

impl CubieHelper for CenterCubie {
    open spec fn arity_spec() -> nat {
        1
    }

    open spec fn faces_spec(&self) -> Seq<CubieFace> {
        self.faces@
    }

    fn new() -> (r: Self) {
        let r = Self { faces: vec![CubieFace::new(); 1] };
        proof {
            assert(r.faces@ =~= uniform_faces(1, uninit_face()));
        }
        r
    }
}

impl CenterCubie {
    pub fn new_boxed() -> (r: Box<Self>)
        ensures
            r.faces@ == uniform_faces(1, uninit_face()),
    {
        Box::new(Self::new())
    }

    pub fn new_from_array(arr: [CubieFace; 1]) -> (r: Self)
        ensures
            r.faces@ == arr@,
    {
        let mut faces: Vec<CubieFace> = Vec::new();
        faces.push(arr[0]);
        let r = Self { faces };
        proof {
            assert(r.faces@ =~= arr@);
        }
        r
    }

    pub fn new_boxed_from_array(arr: [CubieFace; 1]) -> (r: Box<Self>)
        ensures
            r.faces@ == arr@,
    {
        Box::new(Self::new_from_array(arr))
    }

    pub fn new_from_vec(vec: Vec<CubieFace>) -> (r: Self)
        ensures
            r.faces@ == reconciled_faces(vec@, 1),
    {
        if vec.len() == 0 {
            Self::new()
        } else {
            let mut v = vec.clone();
            v.truncate(1);
            let r = Self { faces: v };
            proof {
                assert(r.faces@ =~= reconciled_faces(vec@, 1));
            }
            r
        }
    }

    pub fn new_boxed_from_vec(vec: Vec<CubieFace>) -> (r: Box<Self>)
        ensures
            r.faces@ == reconciled_faces(vec@, 1),
    {
        Box::new(Self::new_from_vec(vec))
    }

    pub fn get_faces(&self) -> (r: &Vec<CubieFace>)
        ensures
            r@ == self.faces@,
    {
        &self.faces
    }
}

/// A corner cubie: exactly 3 stickers.
#[derive(Clone, Debug, PartialEq, Eq)]
pub struct CornerCubie {
    pub faces: Vec<CubieFace>,
}

impl CubieHelper for CornerCubie {
    open spec fn arity_spec() -> nat {
        3
    }

    open spec fn faces_spec(&self) -> Seq<CubieFace> {
        self.faces@
    }

    fn new() -> (r: Self) {
        let r = Self { faces: vec![CubieFace::new(); 3] };
        proof {
            assert(r.faces@ =~= uniform_faces(3, uninit_face()));
        }
        r
    }
}

impl CornerCubie {
    pub fn new_boxed() -> (r: Box<Self>)
        ensures
            r.faces@ == uniform_faces(3, uninit_face()),
    {
        Box::new(Self::new())
    }

    pub fn new_from_array(arr: [CubieFace; 3]) -> (r: Self)
        ensures
            r.faces@ == arr@,
    {
        let mut faces: Vec<CubieFace> = Vec::new();
        faces.push(arr[0]);
        faces.push(arr[1]);
        faces.push(arr[2]);
        let r = Self { faces };
        proof {
            assert(r.faces@ =~= arr@);
        }
        r
    }

    pub fn new_boxed_from_array(arr: [CubieFace; 3]) -> (r: Box<Self>)
        ensures
            r.faces@ == arr@,
    {
        Box::new(Self::new_from_array(arr))
    }

    pub fn new_from_vec(vec: Vec<CubieFace>) -> (r: Self)
        ensures
            r.faces@ == reconciled_faces(vec@, 3),
    {
        let l = vec.len();
        if l == 0 {
            Self::new()
        } else if l < 3 {
            let r = Self { faces: vec![vec[0]; 3] };
            proof {
                assert(r.faces@ =~= reconciled_faces(vec@, 3));
            }
            r
        } else {
            let mut v = vec.clone();
            v.truncate(3);
            let r = Self { faces: v };
            proof {
                assert(r.faces@ =~= reconciled_faces(vec@, 3));
            }
            r
        }
    }

    pub fn new_boxed_from_vec(vec: Vec<CubieFace>) -> (r: Box<Self>)
        ensures
            r.faces@ == reconciled_faces(vec@, 3),
    {
        Box::new(Self::new_from_vec(vec))
    }

    pub fn get_faces(&self) -> (r: &Vec<CubieFace>)
        ensures
            r@ == self.faces@,
    {
        &self.faces
    }
}

/// An edge cubie: exactly 2 stickers.
#[derive(Clone, Debug, PartialEq, Eq)]
pub struct EdgeCubie {
    pub faces: Vec<CubieFace>,
}

impl CubieHelper for EdgeCubie {
    open spec fn arity_spec() -> nat {
        2
    }

    open spec fn faces_spec(&self) -> Seq<CubieFace> {
        self.faces@
    }

    fn new() -> (r: Self) {
        let r = Self { faces: vec![CubieFace::new(); 2] };
        proof {
            assert(r.faces@ =~= uniform_faces(2, uninit_face()));
        }
        r
    }
}

impl EdgeCubie {
    pub fn new_boxed() -> (r: Box<Self>)
        ensures
            r.faces@ == uniform_faces(2, uninit_face()),
    {
        Box::new(Self::new())
    }

    pub fn new_from_array(arr: [CubieFace; 2]) -> (r: Self)
        ensures
            r.faces@ == arr@,
    {
        let mut faces: Vec<CubieFace> = Vec::new();
        faces.push(arr[0]);
        faces.push(arr[1]);
        let r = Self { faces };
        proof {
            assert(r.faces@ =~= arr@);
        }
        r
    }

    pub fn new_boxed_from_array(arr: [CubieFace; 2]) -> (r: Box<Self>)
        ensures
            r.faces@ == arr@,
    {
        Box::new(Self::new_from_array(arr))
    }

    pub fn new_from_vec(vec: Vec<CubieFace>) -> (r: Self)
        ensures
            r.faces@ == reconciled_faces(vec@, 2),
    {
        let l = vec.len();
        if l == 0 {
            Self::new()
        } else if l < 2 {
            let r = Self { faces: vec![vec[0]; 2] };
            proof {
                assert(r.faces@ =~= reconciled_faces(vec@, 2));
            }
            r
        } else {
            let mut v = vec.clone();
            v.truncate(2);
            let r = Self { faces: v };
            proof {
                assert(r.faces@ =~= reconciled_faces(vec@, 2));
            }
            r
        }
    }

    pub fn new_boxed_from_vec(vec: Vec<CubieFace>) -> (r: Box<Self>)
        ensures
            r.faces@ == reconciled_faces(vec@, 2),
    {
        Box::new(Self::new_from_vec(vec))
    }

    pub fn get_faces(&self) -> (r: &Vec<CubieFace>)
        ensures
            r@ == self.faces@,
    {
        &self.faces
    }
}

/// Round trip: a corner cubie built from a fixed sticker triple hands back
/// exactly that triple, in order. `new_from_array` stores the input stickers
/// unchanged and `get_faces` returns the stored stickers unchanged, so what
/// comes back is what went in.
pub proof fn lemma_corner_fixed_round_trip(stored: Seq<CubieFace>, arr: [CubieFace; 3])
    requires
        stored == arr@,
    ensures
        stored.len() == 3,
        forall|i: int| 0 <= i < 3 ==> stored[i] == arr@[i],
{
}

/// The 8 slots of the 26-slot storage that hold corner cubies.
pub open spec fn is_corner_slot(i: int) -> bool {
    i == 0 || i == 2 || i == 6 || i == 8 || i == 17 || i == 19 || i == 23 || i == 25
}

/// The 6 slots that hold center cubies, one per outer face.
pub open spec fn is_center_slot(i: int) -> bool {
    i == 4 || i == 10 || i == 12 || i == 13 || i == 15 || i == 21
}

/// The 12 remaining slots hold edge cubies.
pub open spec fn is_edge_slot(i: int) -> bool {
    0 <= i < 26 && !is_corner_slot(i) && !is_center_slot(i)
}

/// The cubie stored at slot `i` has the kind the fixed layout assigns to
/// that slot, and owns its kind's exact sticker count.
pub open spec fn slot_wf(c: Cubie, i: int) -> bool {
    &&& c.wf()
    &&& is_corner_slot(i) ==> c is Corner
    &&& is_center_slot(i) ==> c is Center
    &&& is_edge_slot(i) ==> c is Edge
}

/// The 9 cubies visible on one outer plane of the cube, selected by
/// borrowing from the cube's single owned storage.
pub struct CubeFace<'a> {
    pub elements: [&'a Cubie; 9],
}

impl<'a> CubeFace<'a> {
    pub fn new_from_array(arr: [&'a Cubie; 9]) -> (r: Self)
        ensures
            r.elements@ == arr@,
    {
        Self { elements: arr }
    }
}

/// The six outer planes of the cube.
pub enum CubeFaceKind {
    Top,
    Left,
    Right,
    Front,
    Back,
    Bottom,
}

/// The slots, in raster order, of the 9 cubies lying on each face's plane.
pub open spec fn face_slots(s: CubeFaceKind) -> Seq<int> {
    match s {
        CubeFaceKind::Top => seq![0, 1, 2, 3, 4, 5, 6, 7, 8],
        CubeFaceKind::Left => seq![0, 3, 6, 9, 12, 14, 17, 20, 23],
        CubeFaceKind::Right => seq![2, 5, 8, 11, 13, 16, 19, 22, 25],
        CubeFaceKind::Front => seq![6, 7, 8, 14, 15, 16, 23, 24, 25],
        CubeFaceKind::Back => seq![0, 1, 2, 9, 10, 11, 17, 18, 19],
        CubeFaceKind::Bottom => seq![17, 18, 19, 20, 21, 22, 23, 24, 25],
    }
}

/// Every face table names 9 slots of the 26-slot storage.
pub proof fn lemma_face_slots_in_range(s: CubeFaceKind)
    ensures
        face_slots(s).len() == 9,
        forall|j: int| 0 <= j < 9 ==> 0 <= #[trigger] face_slots(s)[j] < 26,
{
}

/// The slot, in canonical corner order, of each of the 8 corner cubies:
/// top-back-left, top-back-right, top-front-left, top-front-right, then the
/// same four positions on the bottom layer.
pub open spec fn corner_slot_of(j: int) -> int {
    seq![0, 2, 6, 8, 17, 19, 23, 25][j]
}

/// A 3x3 twisty puzzle cube: exactly 26 cubies in one fixed linear storage.
///
/// The geometric center of the middle layer holds the mechanical core, not a
/// cubie, so the middle layer contributes only 8 slots.
pub struct Cube {
    pub elements: Vec<Cubie>,
}

/// `f` is the face view of `c` for kind `s`: its 9 elements are borrowed,
/// in raster order, from the slots the fixed layout assigns to that plane.
pub open spec fn face_selects(f: CubeFace, c: Cube, s: CubeFaceKind) -> bool {
    forall|j: int| 0 <= j < 9 ==> #[trigger] f.elements@[j] == c.elements@[face_slots(s)[j]]
}

/// `r` is the corner selection of `c`: its 8 elements are borrowed, in
/// canonical corner order, from the 8 corner slots.
pub open spec fn corners_select(r: Seq<&Cubie>, c: Cube) -> bool {
    &&& r.len() == 8
    &&& forall|j: int| 0 <= j < 8 ==> #[trigger] r[j] == c.elements@[corner_slot_of(j)]
}

impl Cube {
    /// The storage holds exactly 26 cubies and every slot holds a well
    /// formed cubie of the kind the fixed layout assigns to it.
    pub open spec fn wf(self) -> bool {
        &&& self.elements@.len() == 26
        &&& forall|i: int| 0 <= i < 26 ==> slot_wf(#[trigger] self.elements@[i], i)
    }

    /// Initializes a 3x3 Cube with elements in the form of an array with
    /// elements in three slices in the following order:
    ///
    /// left to right, back to front, and top to bottom
    ///
    ///  Top     Middle    Bottom
    /// 0 1 2    9 10 11  17 18 19
    /// 3 4 5   12    13  20 21 22
    /// 6 7 8   14 15 16  23 24 25
    ///
    /// where 0 would be the top left corner cubie in the back. Every sticker
    /// of every cubie starts uninitialized.
    pub fn new() -> (r: Self)
        ensures
            r.wf(),
            r.elements@.len() == 26,
            forall|i: int| 0 <= i < 26 ==> (#[trigger] r.elements@[i]).faces_spec()
                == uniform_faces(r.elements@[i].arity_spec(), uninit_face()),
    {
        let mut elements: Vec<Cubie> = Vec::new();
        elements.push(Cubie::Corner(CornerCubie::new()));  // Top slice (9 cubies)
        elements.push(Cubie::Edge(EdgeCubie::new()));
        elements.push(Cubie::Corner(CornerCubie::new()));
        elements.push(Cubie::Edge(EdgeCubie::new()));
        elements.push(Cubie::Center(CenterCubie::new()));
        elements.push(Cubie::Edge(EdgeCubie::new()));
        elements.push(Cubie::Corner(CornerCubie::new()));
        elements.push(Cubie::Edge(EdgeCubie::new()));
        elements.push(Cubie::Corner(CornerCubie::new()));
        elements.push(Cubie::Edge(EdgeCubie::new()));  // Middle slice (8 cubies)
        elements.push(Cubie::Center(CenterCubie::new()));
        elements.push(Cubie::Edge(EdgeCubie::new()));
        elements.push(Cubie::Center(CenterCubie::new()));
        elements.push(Cubie::Center(CenterCubie::new()));
        elements.push(Cubie::Edge(EdgeCubie::new()));
        elements.push(Cubie::Center(CenterCubie::new()));
        elements.push(Cubie::Edge(EdgeCubie::new()));
        elements.push(Cubie::Corner(CornerCubie::new()));  // Bottom slice (9 cubies)
        elements.push(Cubie::Edge(EdgeCubie::new()));
        elements.push(Cubie::Corner(CornerCubie::new()));
        elements.push(Cubie::Edge(EdgeCubie::new()));
        elements.push(Cubie::Center(CenterCubie::new()));
        elements.push(Cubie::Edge(EdgeCubie::new()));
        elements.push(Cubie::Corner(CornerCubie::new()));
        elements.push(Cubie::Edge(EdgeCubie::new()));
        elements.push(Cubie::Corner(CornerCubie::new()));
        Cube { elements }
    }

    /// The 8 corner cubies, in canonical corner order.
    pub fn get_corners(&self) -> (r: [&Cubie; 8])
        requires
            self.wf(),
        ensures
            corners_select(r@, *self),
    {
        [
            &self.elements[0], &self.elements[2], &self.elements[6],
            &self.elements[8], &self.elements[17], &self.elements[19],
            &self.elements[23], &self.elements[25],
        ]
    }

    /// The 9 cubies on the plane of face `s`, in raster order, borrowed from
    /// this cube's storage.
    pub fn get_face(&self, s: CubeFaceKind) -> (r: CubeFace<'_>)
        requires
            self.wf(),
        ensures
            face_selects(r, *self, s),
    {
        match s {
            CubeFaceKind::Top => CubeFace::new_from_array([
                &self.elements[0], &self.elements[1], &self.elements[2],
                &self.elements[3], &self.elements[4], &self.elements[5],
                &self.elements[6], &self.elements[7], &self.elements[8],
            ]),
            CubeFaceKind::Left => CubeFace::new_from_array([
                &self.elements[0], &self.elements[3], &self.elements[6],
                &self.elements[9], &self.elements[12], &self.elements[14],
                &self.elements[17], &self.elements[20], &self.elements[23],
            ]),
            CubeFaceKind::Right => CubeFace::new_from_array([
                &self.elements[2], &self.elements[5], &self.elements[8],
                &self.elements[11], &self.elements[13], &self.elements[16],
                &self.elements[19], &self.elements[22], &self.elements[25],
            ]),
            CubeFaceKind::Front => CubeFace::new_from_array([
                &self.elements[6], &self.elements[7], &self.elements[8],
                &self.elements[14], &self.elements[15], &self.elements[16],
                &self.elements[23], &self.elements[24], &self.elements[25],
            ]),
            CubeFaceKind::Back => CubeFace::new_from_array([
                &self.elements[0], &self.elements[1], &self.elements[2],
                &self.elements[9], &self.elements[10], &self.elements[11],
                &self.elements[17], &self.elements[18], &self.elements[19],
            ]),
            CubeFaceKind::Bottom => CubeFace::new_from_array([
                &self.elements[17], &self.elements[18], &self.elements[19],
                &self.elements[20], &self.elements[21], &self.elements[22],
                &self.elements[23], &self.elements[24], &self.elements[25],
            ]),
        }
    }
}

/// Reading the corners of one cube twice yields equal results: any two
/// selections meeting `get_corners`'s contract for the same cube agree.
pub proof fn lemma_get_corners_deterministic(c: Cube, r1: Seq<&Cubie>, r2: Seq<&Cubie>)
    requires
        corners_select(r1, c),
        corners_select(r2, c),
    ensures
        r1 =~= r2,
{
}

/// Reading one face of one cube twice yields equal results: any two face
/// views meeting `get_face`'s contract for the same cube and kind agree.
pub proof fn lemma_get_face_deterministic(c: Cube, s: CubeFaceKind, f1: CubeFace, f2: CubeFace)
    requires
        face_selects(f1, c, s),
        face_selects(f2, c, s),
    ensures
        f1.elements@ =~= f2.elements@,
{
}

} // verus!

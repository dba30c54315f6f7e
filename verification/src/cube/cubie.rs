//! Cubie model: sticker colors, single stickers, and the three cubie kinds
//! with their construction policies.

use vstd::prelude::*;

verus! {

/// Standard colors for 6 sided twisty puzzles, plus an uninitialized value.
#[derive(Copy, Clone, Debug, PartialEq, Eq, Structural)]
pub enum Color {
    Blue,
    Green,
    Orange,
    Red,
    White,
    Yellow,
    Uninit,
}

impl Color {
    /// The fixed, involutive opposite-color pairing: Blue-Green, Orange-Red,
    /// White-Yellow; Uninit has no defined opposite and pairs with itself.
    pub open spec fn opposite_spec(self) -> Self {
        match self {
            Color::Blue => Color::Green,
            Color::Green => Color::Blue,
            Color::Orange => Color::Red,
            Color::Red => Color::Orange,
            Color::White => Color::Yellow,
            Color::Yellow => Color::White,
            Color::Uninit => Color::Uninit,
        }
    }

    pub fn new() -> (r: Self)
        ensures
            r == Color::Uninit,
    {
        Color::Uninit
    }

    /// Returns the standardized opposite color of a Color instance
    pub fn opposite_color(&self) -> (r: Self)
        ensures
            r == self.opposite_spec(),
    {
        Color::opposite_color_from_color(self)
    }

    /// Returns the standardized opposite color of a Color value
    pub fn opposite_color_from_color(color: &Self) -> (r: Self)
        ensures
            r == color.opposite_spec(),
    {
        match color {
            Color::Blue => Color::Green,
            Color::Green => Color::Blue,
            Color::Orange => Color::Red,
            Color::Red => Color::Orange,
            Color::White => Color::Yellow,
            Color::Yellow => Color::White,
            Color::Uninit => Color::Uninit,
        }
    }
}

/// The opposite-color pairing is an involution: applying it twice returns
/// the starting color, for every color including Uninit.
pub proof fn lemma_opposite_color_involutive(c: Color)
    ensures
        c.opposite_spec().opposite_spec() == c,
{
}

/// One colored facet attached to one side of one cubie. Stickers are equal
/// exactly when their colors are equal.
#[derive(Copy, Clone, Debug, PartialEq, Eq, Structural)]
pub struct Face {
    pub color: Color,
}

impl Face {
    pub fn new() -> (r: Self)
        ensures
            r.color == Color::Uninit,
    {
        Self { color: Color::new() }
    }

    pub fn new_from_cubie_color(color: Color) -> (r: Self)
        ensures
            r.color == color,
    {
        Self { color }
    }

    pub fn opposite_color(&self) -> (r: Color)
        ensures
            r == self.color.opposite_spec(),
    {
        Color::opposite_color(&self.color)
    }
}

/// The uninitialized sticker: the value every fresh cubie's slots carry.
pub open spec fn uninit_face() -> Face {
    Face { color: Color::Uninit }
}

/// `n` copies of the sticker `f`.
pub open spec fn uniform_faces(n: nat, f: Face) -> Seq<Face> {
    Seq::new(n, |i: int| f)
}

/// The reconciliation policy for building a cubie of sticker count `arity`
/// from an input sequence of unconstrained length:
/// - empty input: all `arity` slots uninitialized;
/// - shorter than `arity`: the first input sticker replicated over all slots;
/// - otherwise: the first `arity` input stickers, in order.
pub open spec fn reconciled_faces(input: Seq<Face>, arity: nat) -> Seq<Face> {
    if input.len() == 0 {
        uniform_faces(arity, uninit_face())
    } else if input.len() < arity {
        uniform_faces(arity, input[0])
    } else {
        input.subrange(0, arity as int)
    }
}

/// Constructor capability shared by the three cubie kinds: a fresh cubie
/// carries its kind's full sticker count, every slot uninitialized.
pub trait BuildCubie: Sized {
    /// How many stickers a cubie of this kind owns, fixed for its lifetime.
    spec fn arity_spec() -> nat;

    /// The owned sticker sequence, in slot order.
    spec fn faces_spec(&self) -> Seq<Face>;

    fn new() -> (r: Self)
        ensures
            r.faces_spec() == uniform_faces(Self::arity_spec(), uninit_face()),
    ;
}

/// A cubie is an individual "subcube" of a twisty cube puzzle. A cubie can
/// have from one to three colored faces depending on if it is a corner cubie
/// (3 colored faces), edge cubie (2 colored faces), or center cubie (1
/// colored face).
///
/// The three kinds are closed variants of this one type, so cubies of any
/// kind can be stored uniformly and recovered by pattern matching.
#[derive(Clone, Debug, PartialEq, Eq)]
pub enum Cubie {
    Center(Center),
    Corner(Corner),
    Edge(Edge),
}

impl Cubie {
    /// The sticker sequence of the underlying cubie, whatever its kind.
    pub open spec fn faces_spec(self) -> Seq<Face> {
        match self {
            Cubie::Center(c) => c.faces@,
            Cubie::Corner(c) => c.faces@,
            Cubie::Edge(c) => c.faces@,
        }
    }

    /// The sticker count this cubie's kind fixes: 1, 2 or 3.
    pub open spec fn arity_spec(self) -> nat {
        match self {
            Cubie::Center(_) => 1,
            Cubie::Corner(_) => 3,
            Cubie::Edge(_) => 2,
        }
    }

    /// A cubie is well formed when it owns exactly its kind's sticker count.
    pub open spec fn wf(self) -> bool {
        self.faces_spec().len() == self.arity_spec()
    }
}

/// A center cubie: exactly 1 sticker.
#[derive(Clone, Debug, PartialEq, Eq)]
pub struct Center {
    pub faces: Vec<Face>,
}

impl BuildCubie for Center {
    open spec fn arity_spec() -> nat {
        1
    }

    open spec fn faces_spec(&self) -> Seq<Face> {
        self.faces@
    }

    fn new() -> (r: Self) {
        let r = Self { faces: vec![Face::new(); 1] };
        proof {
            assert(r.faces@ =~= uniform_faces(1, uninit_face()));
        }
        r
    }
}

impl Center {
    pub fn new_boxed() -> (r: Box<Self>)
        ensures
            r.faces@ == uniform_faces(1, uninit_face()),
    {
        Box::new(Self::new())
    }

    pub fn new_from_array(arr: [Face; 1]) -> (r: Self)
        ensures
            r.faces@ == arr@,
    {
        let mut faces: Vec<Face> = Vec::new();
        faces.push(arr[0]);
        let r = Self { faces };
        proof {
            assert(r.faces@ =~= arr@);
        }
        r
    }

    pub fn new_boxed_from_array(arr: [Face; 1]) -> (r: Box<Self>)
        ensures
            r.faces@ == arr@,
    {
        Box::new(Self::new_from_array(arr))
    }

    pub fn new_from_vec(vec: Vec<Face>) -> (r: Self)
        ensures
            r.faces@ == reconciled_faces(vec@, 1),
    {
        if vec.len() == 0 {
            Self::new()
        } else {
            let mut v = vec.clone();
            v.truncate(1);
            let r = Self { faces: v };
            proof {
                assert(r.faces@ =~= reconciled_faces(vec@, 1));
            }
            r
        }
    }

    pub fn new_boxed_from_vec(vec: Vec<Face>) -> (r: Box<Self>)
        ensures
            r.faces@ == reconciled_faces(vec@, 1),
    {
        Box::new(Self::new_from_vec(vec))
    }

    pub fn faces(&self) -> (r: &Vec<Face>)
        ensures
            r@ == self.faces@,
    {
        &self.faces
    }
}

/// A corner cubie: exactly 3 stickers.
#[derive(Clone, Debug, PartialEq, Eq)]
pub struct Corner {
    pub faces: Vec<Face>,
}

impl BuildCubie for Corner {
    open spec fn arity_spec() -> nat {
        3
    }

    open spec fn faces_spec(&self) -> Seq<Face> {
        self.faces@
    }

    fn new() -> (r: Self) {
        let r = Self { faces: vec![Face::new(); 3] };
        proof {
            assert(r.faces@ =~= uniform_faces(3, uninit_face()));
        }
        r
    }
}

impl Corner {
    pub fn new_boxed() -> (r: Box<Self>)
        ensures
            r.faces@ == uniform_faces(3, uninit_face()),
    {
        Box::new(Self::new())
    }

    pub fn new_from_array(arr: [Face; 3]) -> (r: Self)
        ensures
            r.faces@ == arr@,
    {
        let mut faces: Vec<Face> = Vec::new();
        faces.push(arr[0]);
        faces.push(arr[1]);
        faces.push(arr[2]);
        let r = Self { faces };
        proof {
            assert(r.faces@ =~= arr@);
        }
        r
    }

    pub fn new_boxed_from_array(arr: [Face; 3]) -> (r: Box<Self>)
        ensures
            r.faces@ == arr@,
    {
        Box::new(Self::new_from_array(arr))
    }

    pub fn new_from_vec(vec: Vec<Face>) -> (r: Self)
        ensures
            r.faces@ == reconciled_faces(vec@, 3),
    {
        let l = vec.len();
        if l == 0 {
            Self::new()
        } else if l < 3 {
            let r = Self { faces: vec![vec[0]; 3] };
            proof {
                assert(r.faces@ =~= reconciled_faces(vec@, 3));
            }
            r
        } else {
            let mut v = vec.clone();
            v.truncate(3);
            let r = Self { faces: v };
            proof {
                assert(r.faces@ =~= reconciled_faces(vec@, 3));
            }
            r
        }
    }

    pub fn new_boxed_from_vec(vec: Vec<Face>) -> (r: Box<Self>)
        ensures
            r.faces@ == reconciled_faces(vec@, 3),
    {
        Box::new(Self::new_from_vec(vec))
    }

    pub fn faces(&self) -> (r: &Vec<Face>)
        ensures
            r@ == self.faces@,
    {
        &self.faces
    }
}

/// An edge cubie: exactly 2 stickers.
#[derive(Clone, Debug, PartialEq, Eq)]
pub struct Edge {
    pub faces: Vec<Face>,
}

impl BuildCubie for Edge {
    open spec fn arity_spec() -> nat {
        2
    }

    open spec fn faces_spec(&self) -> Seq<Face> {
        self.faces@
    }

    fn new() -> (r: Self) {
        let r = Self { faces: vec![Face::new(); 2] };
        proof {
            assert(r.faces@ =~= uniform_faces(2, uninit_face()));
        }
        r
    }
}

impl Edge {
    pub fn new_boxed() -> (r: Box<Self>)
        ensures
            r.faces@ == uniform_faces(2, uninit_face()),
    {
        Box::new(Self::new())
    }

    pub fn new_from_array(arr: [Face; 2]) -> (r: Self)
        ensures
            r.faces@ == arr@,
    {
        let mut faces: Vec<Face> = Vec::new();
        faces.push(arr[0]);
        faces.push(arr[1]);
        let r = Self { faces };
        proof {
            assert(r.faces@ =~= arr@);
        }
        r
    }

    pub fn new_boxed_from_array(arr: [Face; 2]) -> (r: Box<Self>)
        ensures
            r.faces@ == arr@,
    {
        Box::new(Self::new_from_array(arr))
    }

    pub fn new_from_vec(vec: Vec<Face>) -> (r: Self)
        ensures
            r.faces@ == reconciled_faces(vec@, 2),
    {
        let l = vec.len();
        if l == 0 {
            Self::new()
        } else if l < 2 {
            let r = Self { faces: vec![vec[0]; 2] };
            proof {
                assert(r.faces@ =~= reconciled_faces(vec@, 2));
            }
            r
        } else {
            let mut v = vec.clone();
            v.truncate(2);
            let r = Self { faces: v };
            proof {
                assert(r.faces@ =~= reconciled_faces(vec@, 2));
            }
            r
        }
    }

    pub fn new_boxed_from_vec(vec: Vec<Face>) -> (r: Box<Self>)
        ensures
            r.faces@ == reconciled_faces(vec@, 2),
    {
        Box::new(Self::new_from_vec(vec))
    }

    pub fn faces(&self) -> (r: &Vec<Face>)
        ensures
            r@ == self.faces@,
    {
        &self.faces
    }
}

/// Round trip: a corner cubie built from a fixed sticker triple hands back
/// exactly that triple, in order. `new_from_array` stores the input stickers
/// unchanged and `faces` returns the stored stickers unchanged, so what
/// comes back is what went in.
pub proof fn lemma_corner_fixed_round_trip(stored: Seq<Face>, arr: [Face; 3])
    requires
        stored == arr@,
    ensures
        stored.len() == 3,
        forall|i: int| 0 <= i < 3 ==> stored[i] == arr@[i],
{
}

} // verus!

use rustytwisty::cube::cube::{Cube, FaceKind};
use rustytwisty::cube::cubie::{BuildCubie, Center, Color, Corner, Cubie, Face};

#[test]
fn cubie_cubie_color() {
    // Inequality
    let c1 = (Color::Blue, Color::Green);

    assert!(c1.0 != c1.1);

    // Equality
    let c2 = (Color::Blue, Color::Blue);

    assert_eq!(c2.0, c2.1);

    // Init
    let c3 = (Color::new(), Color::Uninit);

    assert_eq!(c3.0, c3.1)
}

#[test]
fn cubie_center_cubie() {
    let a: Cubie = Cubie::Center(Center::new());
    let b: &Center = match &a {
        Cubie::Center(b) => b,
        _ => panic!("&b isn't a Center!!"),
    };
    assert_eq!(b.faces()[0], Face { color: Color::Uninit });
}

#[test]
fn cubie_new_from_array() {
    let a = Center::new_from_array([Face::new(); 1]);

    // new_from_array works with good value
    assert_eq!(a.faces.len(), 1);
}

#[test]
fn cubie_new_from_vec() {
    let a = Center::new_boxed_from_vec(vec![Face::new(); 1]);

    // new_from_vec works with good value
    assert_eq!(a.faces.len(), 1);

    let a = Center::new_boxed_from_vec(vec![Face::new(); 10]);

    // too big value is truncated
    assert_eq!(a.faces.len(), 1);

    let a = Center::new_boxed_from_vec(vec![Face::new(); 0]);

    // too little value means values are added onto faces
    assert_eq!(a.faces.len(), 1);

    let a = Corner::new_boxed_from_vec(vec![Face::new(); 1]);

    // values added on to correct cubie face number
    assert_eq!(a.faces.len(), 3);

    let a = Corner::new_boxed_from_vec(vec![Face::new(); 4]);

    // truncation works for larger cubie types
    assert_eq!(a.faces.len(), 3);
}

#[test]
fn cubie_cubie_macro() {
    let a: Cubie = Cubie::Corner(Corner::new());
    let b: &Corner = match &a {
        Cubie::Corner(b) => b,
        _ => panic!("&b isn't a Corner!!"),
    };
    assert_eq!(b.faces().len(), 3);
}

#[test]
fn cube_cube_init() {
    let c = Cube::new();

    assert_eq!(c.elements.len(), 26);
}

#[test]
fn cube_get_face_array() {
    let c = Cube::new();

    let cf = c.face(FaceKind::Top);

    assert_eq!(cf.elements.len(), 9);
    let cubie: &Cubie = &c.elements[0];
    let cornercubie: &Corner = match cubie {
        Cubie::Corner(i) => i,
        _ => panic!("cubie isn't a CornerCubie!!"),
    };

    let cubie2: &Cubie = cf.elements[0];
    let cornercubie2: &Corner = match cubie2 {
        Cubie::Corner(i) => i,
        _ => panic!("cubie2 isn't a CornerCubie!!"),
    };

    assert_eq!(cornercubie.faces, cornercubie2.faces);
}

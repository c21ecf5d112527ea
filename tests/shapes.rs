use week_one::shapes::{Rectangle, Square};

#[test]
fn rectangle_area_and_perimeter() {
    let r = Rectangle { width: 10, height: 20 };
    assert_eq!(r.area(), 200);
    assert_eq!(r.perimeter(), 60);
}

#[test]
fn square_area_and_perimeter() {
    let s = Square { side: 10 };
    assert_eq!(s.area(), 100);
    assert_eq!(s.perimeter(), 40);
}

#[test]
fn degenerate_shapes_are_zero() {
    assert_eq!(Rectangle { width: 0, height: 7 }.area(), 0);
    assert_eq!(Rectangle { width: 0, height: 7 }.perimeter(), 14);
    assert_eq!(Square { side: 0 }.area(), 0);
    assert_eq!(Square { side: 0 }.perimeter(), 0);
}

#[test]
fn largest_square_that_fits() {
    let s = Square { side: 65535 };
    assert_eq!(s.area(), 4294836225);
    assert_eq!(s.perimeter(), 262140);
}

#[test]
fn shapes_introduce_themselves() {
    assert_eq!(Rectangle::whoami(), "I am a rectangle");
    assert_eq!(Square::whoami(), "I am a square");
}

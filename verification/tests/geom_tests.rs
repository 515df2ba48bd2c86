use rocket_planets::geom::{div_trunc, Vec2i};

#[test]
fn div_trunc_rounds_towards_zero() {
    assert_eq!(div_trunc(7, 2), 3);
    assert_eq!(div_trunc(-7, 2), -3);
    assert_eq!(div_trunc(-1, 1000), 0);
    assert_eq!(div_trunc(1999, 1000), 1);
    assert_eq!(div_trunc(-1999, 1000), -1);
    assert_eq!(div_trunc(0, 5), 0);
}

#[test]
fn vector_arithmetic() {
    let a = Vec2i::new(3, -4);
    let b = Vec2i::new(10, 20);
    assert_eq!(a.plus(b), Vec2i { x: 13, y: 16 });
    assert_eq!(a.minus(b), Vec2i { x: -7, y: -24 });
    assert_eq!(a.scaled(-2), Vec2i { x: -6, y: 8 });
}

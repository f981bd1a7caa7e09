use delphos::{NumberCast, Vec2};

#[test]
fn vec2_constructors() {
    let v = Vec2::new(3, 4);
    assert_eq!((v.x, v.y), (3, 4));
    let s = Vec2::splat(7u32);
    assert_eq!((s.x, s.y), (7, 7));
    assert_eq!((v.set_x(9).x, v.set_x(9).y), (9, 4));
    assert_eq!((v.set_y(9).x, v.set_y(9).y), (3, 9));
}

#[test]
fn vec2_swizzles() {
    let v = Vec2::new(1, 2);
    let xx = v.xx();
    assert_eq!((xx.x, xx.y), (1, 1));
    let yy = v.yy();
    assert_eq!((yy.x, yy.y), (1, 1));
}

#[test]
fn vec2_from_pairs() {
    let a: Vec2<i32> = (5, -6).into();
    assert_eq!((a.x, a.y), (5, -6));
    let b: Vec2<u16> = Vec2::from([8u16, 9u16]);
    assert_eq!((b.x, b.y), (8, 9));
}

#[test]
fn vec2_arithmetic() {
    let a = Vec2::new(10i32, 20);
    let b = Vec2::new(3i32, 4);
    let s = a + b;
    assert_eq!((s.x, s.y), (13, 24));
    let d = a - b;
    assert_eq!((d.x, d.y), (7, 16));
    let m = a * b;
    assert_eq!((m.x, m.y), (30, 80));
    let q = a / b;
    assert_eq!((q.x, q.y), (3, 5));
    let t = a + (1, 2);
    assert_eq!((t.x, t.y), (11, 22));
    let u = a * 2;
    assert_eq!((u.x, u.y), (20, 40));
    let w = a / (5, 10);
    assert_eq!((w.x, w.y), (2, 2));
    let n = -a;
    assert_eq!((n.x, n.y), (-10, -20));
}

#[test]
fn vec2_assign_ops() {
    let mut a = Vec2::new(10u32, 20);
    a.add_assign(Vec2::new(1, 2));
    assert_eq!((a.x, a.y), (11, 22));
    a.sub_assign_scalar(1);
    assert_eq!((a.x, a.y), (10, 21));
    a.mul_assign(Vec2::new(2, 3));
    assert_eq!((a.x, a.y), (20, 63));
    a.div_assign_scalar(10);
    assert_eq!((a.x, a.y), (2, 6));
}

#[test]
fn vec2_saturate_roundtrip() {
    let v = Vec2::new(250u8, 3);
    let s = v.saturate();
    let sum = s + std::num::Saturating(10u8);
    let back = sum.unsaturate();
    assert_eq!((back.x, back.y), (255, 13));
    let same = Vec2::new(4u8, 5).saturate().unsaturate();
    assert_eq!((same.x, same.y), (4, 5));
}

#[test]
fn casts_between_integers() {
    assert_eq!(NumberCast::<i64>::number_cast(200u8), -56i64);
    assert_eq!(NumberCast::<i8>::number_cast(200u8), -56i8);
    assert_eq!(NumberCast::<u32>::number_cast(-5i32), 0u32);
    assert_eq!(NumberCast::<u8>::number_cast(300i32), 44u8);
    assert_eq!(NumberCast::<u16>::number_cast(70000u32), 4464u16);
    assert_eq!(NumberCast::<i16>::number_cast(-70000i64), -4464i16);
    assert_eq!(NumberCast::<u64>::number_cast(-1isize), 0u64);
    assert_eq!(NumberCast::<usize>::number_cast(42u8), 42usize);
}

#[test]
fn vec2_casts() {
    let v = Vec2::new(-3i32, 300);
    let u = v.as_u32();
    assert_eq!((u.x, u.y), (0, 300));
    let b = v.as_u8();
    assert_eq!((b.x, b.y), (0, 44));
    let w = Vec2::new(128u8, 5).as_i16();
    assert_eq!((w.x, w.y), (-128, 5));
    let x = Vec2::new(65536u64, 7).as_i32();
    assert_eq!((x.x, x.y), (65536, 7));
}

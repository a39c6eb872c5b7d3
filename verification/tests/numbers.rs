//! Numbers, and the notation they are written in.
use idml_import::bignat::{BigNat, Side};
use idml_import::decimal::parse_number;
use idml_import::geometry::{
    bounds_from_anchors, compose_matrix, effective_item_transform, parse_bounds, parse_insets,
    parse_matrix, parse_xy_pair,
};
use idml_import::story::parse_bounds_local;
use idml_import::text::{
    parse_bool, parse_i32, parse_u32, split_words, starts_after_space, trim, write_decimal,
};
use idml_import::{Matrix, Num, PathAnchor};

fn num(x: f32) -> Num {
    Num { bits: x.to_bits() }
}

fn plain(x: Num) -> f32 {
    f32::from_bits(x.bits)
}

/// Whether `a` is `b`, where what is not a number is like any other such.
fn same(a: Num, b: f32) -> bool {
    plain(a).is_nan() && b.is_nan() || a.bits == b.to_bits()
}

fn samples() -> Vec<f32> {
    let mut r = vec![
        0.0,
        -0.0,
        1.0,
        -1.0,
        0.1,
        -0.3,
        1.5e-45,
        -1.1754942e-38,
        1.1754944e-38,
        3.4028235e38,
        -3.4028235e38,
        f32::INFINITY,
        f32::NEG_INFINITY,
        f32::NAN,
        16777216.0,
        16777217.0,
        255.0,
        841.88977,
        2.0e-30,
        7.0e25,
    ];
    let mut bits: u32 = 12345;
    for _ in 0..25 {
        bits = bits.wrapping_mul(1664525).wrapping_add(1013904223);
        r.push(f32::from_bits(bits));
    }
    r
}

#[test]
fn arithmetic_rounds_as_binary32_does() {
    for x in samples() {
        for y in samples() {
            let (a, b) = (num(x), num(y));
            assert!(same(a.plus(b), x + y), "{x:e} + {y:e}");
            assert!(same(a.minus(b), x - y), "{x:e} - {y:e}");
            assert!(same(a.times(b), x * y), "{x:e} * {y:e}");
            assert_eq!(a.less(b), x < y, "{x:e} < {y:e}");
            assert_eq!(a.at_most(b), x <= y, "{x:e} <= {y:e}");
            if x != y {
                assert!(same(a.lesser(b), x.min(y)), "min {x:e} {y:e}");
                assert!(same(a.greater(b), x.max(y)), "max {x:e} {y:e}");
            }
        }
        assert!(same(num(x).divided_by(100), x / 100.0), "{x:e} / 100");
        assert!(same(num(x).negated(), -x));
        assert_eq!(num(x).is_finite(), x.is_finite());
        assert!(same(num(x).clamped(), x.clamp(0.0, 1.0)));
        assert_eq!(num(x).nearest_byte(), x.round() as u8, "{x:e}");
    }
}

#[test]
fn whole_numbers_are_rounded() {
    for n in [0, 1, 12, 255, 612, 16777216, 16777217, 16777219, u32::MAX] {
        assert!(same(Num::whole(n), n as f32), "{n}");
    }
}

#[test]
fn decimals_are_read_as_they_are_written() {
    for s in [
        "0", "-0", "+0", "1", "-1", "+2.5", ".5", "5.", "1e3", "1E3", "1e+3", "1e-3", "-1.25e2",
        "595.2755905511812", "841.8897637795276", "8.503937007874017", "14.173228346456694",
        "3.4028235e38", "3.4028236e38", "3.5e38", "1e39", "1e-45", "7e-46", "8e-46",
        "1.4e-45", "1.1754943e-38", "16777217", "16777219", "0.000000000000000000000001",
        "123456789012345678901234567890", "inf", "-inf", "infinity", "+Infinity", "INF",
        "1e400", "1e-400", "-1e400", "00012.500", "33554435", "2.3509885615147286e-38",
    ] {
        assert!(same(parse_number(s).unwrap(), s.parse::<f32>().unwrap()), "{s}");
    }
    assert!(plain(parse_number("nan").unwrap()).is_nan());
    assert!(plain(parse_number("-NaN").unwrap()).is_nan());
    for s in [
        "", "+", "-", ".", "e5", "1e", "1e+", "1.2.3", " 1", "1 ", "0x10", "1_000", "1,5", "--1",
        "infinit", "in", "nanx", "١",
    ] {
        assert!(parse_number(s).is_none(), "{s:?}");
        assert!(s.parse::<f32>().is_err(), "{s:?}");
    }
}

#[test]
fn whole_numbers_are_read() {
    for s in [
        "0", "7", "+7", "-7", "007", "4294967295", "4294967296", "2147483647", "2147483648",
        "-2147483648", "-2147483649", "", "+", "-", "1.0", " 1", "a", "-0",
    ] {
        assert_eq!(parse_u32(s), s.parse::<u32>().ok(), "{s:?}");
        assert_eq!(parse_i32(s), s.parse::<i32>().ok(), "{s:?}");
    }
    for s in ["true", "false", "True", "", "1"] {
        assert_eq!(parse_bool(s), s.parse::<bool>().ok(), "{s:?}");
    }
}

#[test]
fn decimals_of_different_numbers_differ() {
    for n in [0, 9, 10, 99, 100, 4294967296, u64::MAX] {
        assert_eq!(write_decimal(n), n.to_string());
    }
}

#[test]
fn texts_are_split_and_trimmed() {
    for s in ["", " ", "a", " a b ", "a\u{a0}b", "\u{3000}x\u{2009}", "\ta\n\u{b}b\r"] {
        assert_eq!(trim(s), s.trim(), "{s:?}");
        assert_eq!(
            split_words(s, false),
            s.split_whitespace().collect::<Vec<_>>(),
            "{s:?}"
        );
        assert_eq!(
            split_words(s, true),
            s.split_ascii_whitespace().collect::<Vec<_>>(),
            "{s:?}"
        );
    }
    assert!(starts_after_space("  ACE 18", "ACE 18"));
    assert!(!starts_after_space("  ACE 1", "ACE 18"));
}

#[test]
fn large_naturals_are_compared_by_size() {
    let mut a = BigNat::from_u32(3);
    a.shift_left(100);
    let mut b = BigNat::from_u32(2);
    b.shift_left(100);
    assert!(matches!(a.side_of(&b), Side::Above));
    assert!(matches!(b.side_of(&a), Side::Below));
    let mut c = b.copy();
    c.mul_add(3, 0);
    a.mul_add(2, 0);
    assert!(matches!(a.side_of(&c), Side::Equal));
    assert!(matches!(a.plus(&c).side_of(&a), Side::Above));
}

#[test]
fn boxes_and_matrices_need_all_their_numbers() {
    let b = parse_bounds("1 2 3.5 4").unwrap();
    assert_eq!(
        [b.top, b.left, b.bottom, b.right].map(plain),
        [1.0, 2.0, 3.5, 4.0]
    );
    assert!(parse_bounds("1 2 3").is_none());
    assert!(parse_bounds("1 2 3 4 5").is_none());
    assert!(parse_bounds_local("1 x 2 3 4").is_some(), "what is no number is left out");
    assert!(parse_bounds_local("1 2 3").is_none());
    assert!(parse_matrix("1 0 0 1 5").is_none());
    assert_eq!(parse_matrix("1 0 0 1 5 6").map(|m| plain(m.ty)), Some(6.0));
    assert_eq!(parse_xy_pair("3 4").map(|p| (plain(p.0), plain(p.1))), Some((3.0, 4.0)));
    assert!(parse_xy_pair("3").is_none());
    assert_eq!(parse_insets("1 2 3 4").map(|i| plain(i.bottom)), Some(3.0));
}

fn matrix(v: [f32; 6]) -> Matrix {
    Matrix {
        a: num(v[0]),
        b: num(v[1]),
        c: num(v[2]),
        d: num(v[3]),
        tx: num(v[4]),
        ty: num(v[5]),
    }
}

#[test]
fn transforms_compose_from_the_outside_in() {
    let turn = matrix([0.0, 1.0, -1.0, 0.0, 0.0, 0.0]);
    let shift = matrix([1.0, 0.0, 0.0, 1.0, 10.0, 20.0]);
    let m = compose_matrix(&turn, &shift);
    assert_eq!((plain(m.tx), plain(m.ty)), (-20.0, 10.0));
    let m = compose_matrix(&shift, &turn);
    assert_eq!((plain(m.tx), plain(m.ty)), (10.0, 20.0));

    assert_eq!(effective_item_transform(&vec![None, None], None), None);
    assert_eq!(
        effective_item_transform(&vec![None], Some(shift)),
        Some(shift)
    );
    let both = effective_item_transform(&vec![Some(turn), None], Some(shift)).unwrap();
    assert_eq!((plain(both.tx), plain(both.ty)), (-20.0, 10.0));
}

fn at(m: &Matrix, p: (f32, f32)) -> (f32, f32) {
    let to = compose_matrix(m, &matrix([1.0, 0.0, 0.0, 1.0, p.0, p.1]));
    (plain(to.tx), plain(to.ty))
}

#[test]
fn identity_changes_no_transform() {
    let identity = matrix([1.0, 0.0, 0.0, 1.0, 0.0, 0.0]);
    let m = matrix([0.5, -3.0, 7.25, 1e-40, -0.1, 1e30]);
    assert_eq!(compose_matrix(&identity, &m), m);
    assert_eq!(compose_matrix(&m, &identity), m);
}

#[test]
fn composed_transform_applies_both_in_turn() {
    let m = matrix([2.0, 1.0, -1.0, 3.0, 10.0, -5.0]);
    let n = matrix([0.5, 4.0, 1.5, -2.0, 7.0, 8.0]);
    assert_eq!(at(&n, (2.0, 4.0)), (14.0, 8.0));
    assert_eq!(at(&m, (14.0, 8.0)), (30.0, 33.0));
    assert_eq!(at(&compose_matrix(&m, &n), (2.0, 4.0)), (30.0, 33.0));
}

#[test]
fn composition_is_associative() {
    let k = matrix([0.0, 1.0, -1.0, 0.0, 3.0, 4.0]);
    let m = matrix([2.0, 1.0, -1.0, 3.0, 10.0, -5.0]);
    let n = matrix([0.5, 4.0, 1.5, -2.0, 7.0, 8.0]);
    let left = compose_matrix(&compose_matrix(&k, &m), &n);
    let right = compose_matrix(&k, &compose_matrix(&m, &n));
    assert_eq!(left, right);
    assert_eq!((plain(left.tx), plain(left.ty)), (-23.0, 20.0));
}

#[test]
fn box_of_a_path_holds_its_points() {
    let at = |x: f32, y: f32| PathAnchor {
        anchor: (num(x), num(y)),
        left: (num(x), num(y)),
        right: (num(x), num(y)),
    };
    let path = vec![at(3.0, -1.0), at(-2.0, 8.0), at(f32::NAN, 4.0), at(0.0, 0.0)];
    let b = bounds_from_anchors(&path);
    assert_eq!(
        [b.left, b.top, b.right, b.bottom].map(plain),
        [-2.0, -1.0, 3.0, 8.0]
    );
}

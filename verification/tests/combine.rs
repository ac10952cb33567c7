use ok_tup::Optionaler;
use ok_tup::{ok_tup1, ok_tup10, ok_tup2, ok_tup3, ok_tup4, ok_tup5};
use ok_tup::{ok_tup6, ok_tup7, ok_tup8, ok_tup9};

#[test]
#[allow(unused_variables)]
fn test_ok_tup() {
    let a: Option<(_,)> = ok_tup1(Ok::<_, String>(1));
    let a: Option<(_, _)> = ok_tup2(Ok::<_, String>(1), Some(2));
    let a: Option<(_, _, _)> = ok_tup3(Some(1), Some(2), Some(3));
    let a: Option<(i32, f32, u8, f64)> =
        ok_tup4(Some(1_i32), Some(2_f32), Some(3_u8), Some(4_f64));
    let a: Option<(_, _, _, _, _)> =
        ok_tup5(Some(1), Some(2), Some(3), Some(4), Some(5));
    let a: Option<(_, _, _, _, _, _)> =
        ok_tup6(Some(1), Some(2), Some(3), Some(4), Some(5), Some(6));
    let a: Option<(_, _, _, _, _, _, _)> = ok_tup7(
        Some(1),
        Some(2),
        Some(3),
        Some(4),
        Some(5),
        Some(6),
        Some(7),
    );
    let a: Option<(_, _, _, _, _, _, _, _)> = ok_tup8(
        Some(1),
        Some(2),
        Some(3),
        Some(4),
        Some(5),
        Some(6),
        Some(7),
        Some(8),
    );
    let a: Option<(_, _, _, _, _, _, _, _, _)> = ok_tup9(
        Some(1),
        Some(2),
        Some(3),
        Some(4),
        Some(5),
        Some(6),
        Some(7),
        Some(8),
        Some(9),
    );
    let a: Option<(_, _, _, _, _, _, _, _, _, _)> = ok_tup10(
        Some(1),
        Some(2),
        Some(3),
        Some(4),
        Some(5),
        Some(6),
        Some(7),
        Some(8),
        Some(9),
        Some(10),
    );

    let s: &str = "hello";
    ok_tup1(Some(s));
    let s: Option<i32> = Some(1);
    ok_tup1(&s);

    let s: &str = "hello";
    ok_tup1(Ok::<_, i32>(s));
    let s: Result<_, i32> = Ok(1);
    ok_tup1(&s);
}

#[test]
fn test_all_present_wraps_values() {
    let r = ok_tup2(Some(1), Ok::<_, ()>("jay".to_owned()));
    assert_eq!(r, Some((1, "jay".to_owned())));

    let r = ok_tup5(Some(1_u8), Some(2_u8), Some(3_u8), Some(4_u8), Some(5_u8));
    assert_eq!(r, Some((1, 2, 3, 4, 5)));

    let r = ok_tup10(
        Some(1_u8),
        Some(2_u8),
        Some(3_u8),
        Some(4_u8),
        Some(5_u8),
        Some(6_u8),
        Some(7_u8),
        Some(8_u8),
        Some(9_u8),
        Some(10_u8),
    );
    assert_eq!(r, Some((1, 2, 3, 4, 5, 6, 7, 8, 9, 10)));
}

#[test]
fn test_any_absent_yields_none() {
    let r = ok_tup2(Some(1), None::<String>);
    assert_eq!(r, None);

    let r = ok_tup2(None::<i32>, Some("jay".to_owned()));
    assert_eq!(r, None);

    let r = ok_tup3(Some(1), None::<u8>, Some(3));
    assert_eq!(r, None);

    let r = ok_tup10(
        Some(1_u8),
        Some(2_u8),
        Some(3_u8),
        Some(4_u8),
        None::<u8>,
        Some(6_u8),
        Some(7_u8),
        Some(8_u8),
        Some(9_u8),
        Some(10_u8),
    );
    assert_eq!(r, None);

    let r = ok_tup3(None::<u8>, None::<u16>, None::<u32>);
    assert_eq!(r, None);
}

#[test]
fn test_order_preserved() {
    let r = ok_tup3(Some("first"), Some("second"), Some("third"));
    let (x, y, z) = r.unwrap();
    assert_eq!(x, "first");
    assert_eq!(y, "second");
    assert_eq!(z, "third");
}

#[test]
fn test_differing_inner_types() {
    let r = ok_tup3(Some(1), Some(2.0), Some("x"));
    assert_eq!(r, Some((1, 2.0, "x")));
}

#[test]
fn test_conversion_contract() {
    // A native optional passes through unchanged.
    assert_eq!(Optionaler::okay(Some(7)), Some(7));
    assert_eq!(Optionaler::okay(None::<i32>), None);

    // A fallible result maps success to present, preserving the payload,
    // and failure to absent, discarding the error.
    assert_eq!(Optionaler::okay(Ok::<_, String>(7)), Some(7));
    assert_eq!(Optionaler::okay(Err::<i32, _>("boom".to_owned())), None);

    // Borrowed forms copy the inner value out.
    let o = Some(7);
    assert_eq!(Optionaler::okay(&o), Some(7));
    let e: Result<i32, u8> = Err(3);
    assert_eq!(Optionaler::okay(&e), None);
}

#[test]
fn test_conversion_idempotent() {
    let o = Some(42);
    let first: Option<i32> = Optionaler::okay(&o);
    let second: Option<i32> = Optionaler::okay(&o);
    assert_eq!(first, second);
    assert_eq!(first, Some(42));

    let r: Result<i32, u8> = Ok(42);
    let first: Option<i32> = Optionaler::okay(&r);
    let second: Option<i32> = Optionaler::okay(&r);
    assert_eq!(first, second);
    assert_eq!(first, Some(42));
}

#[test]
fn test_single_input_is_pass_through() {
    let o = Some(9);
    assert_eq!(ok_tup1(o), Optionaler::okay(o).map(|x| (x,)));
    let n = None::<i32>;
    assert_eq!(ok_tup1(n), Optionaler::okay(n).map(|x: i32| (x,)));
    let r: Result<i32, u8> = Err(1);
    assert_eq!(ok_tup1(r), Optionaler::okay(r).map(|x| (x,)));
}

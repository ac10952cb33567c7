//! The combiners, one per supported arity.
//!
//! `ok_tupN` converts each of its `N` inputs through [`Optionaler`] in
//! argument order and returns `Some` of the tuple of inner values exactly
//! when every conversion yielded `Some`; otherwise it returns `None`. Which
//! input was absent is not reported: that loss is by design. Every
//! conversion is performed, even after an absent one.

use vstd::prelude::*;

use crate::Optionaler;

verus! {

/// The combined result for one input: present exactly when the input is.
pub open spec fn tup1_spec<T1>(a: Option<T1>) -> Option<(T1,)> {
    match a {
        Some(x1) => Some((x1,)),
        None => None,
    }
}

/// Combine one input into an `Option` of a one-element tuple.
pub fn ok_tup1<T1, A: Optionaler<T1>>(a: A) -> (r: Option<(T1,)>)
    ensures
        r == tup1_spec(a.okay_spec()),
        r is Some <==> a.okay_spec() is Some,
        a.okay_spec() is Some ==> r == Some((a.okay_spec()->0,)),
{
    match a.okay() {
        Some(x1) => Some((x1,)),
        None => None,
    }
}

/// The combined result for two inputs: present exactly when both are.
pub open spec fn tup2_spec<T1, T2>(a: Option<T1>, b: Option<T2>) -> Option<(T1, T2)> {
    match (a, b) {
        (Some(x1), Some(x2)) => Some((x1, x2)),
        _ => None,
    }
}

/// Combine two inputs into an `Option` of a pair, in argument order.
pub fn ok_tup2<
    T1, T2, A: Optionaler<T1>, B: Optionaler<T2>,
>(a: A, b: B) -> (r: Option<(T1, T2)>)
    ensures
        r == tup2_spec(a.okay_spec(), b.okay_spec()),
        r is Some <==> (a.okay_spec() is Some && b.okay_spec() is Some),
        (a.okay_spec() is Some && b.okay_spec() is Some) ==> r == Some(
            (a.okay_spec()->0, b.okay_spec()->0),
        ),
{
    let oa = a.okay();
    let ob = b.okay();
    match (oa, ob) {
        (Some(x1), Some(x2)) => Some((x1, x2)),
        _ => None,
    }
}

/// The combined result for three inputs: present exactly when all of them are.
pub open spec fn tup3_spec<T1, T2, T3>(
    a: Option<T1>, b: Option<T2>, c: Option<T3>,
) -> Option<(T1, T2, T3)> {
    match (a, b, c) {
        (Some(x1), Some(x2), Some(x3)) => Some((x1, x2, x3)),
        _ => None,
    }
}

/// Combine three inputs into an `Option` of a triple, in argument order.
pub fn ok_tup3<
    T1, T2, T3, A: Optionaler<T1>, B: Optionaler<T2>, C: Optionaler<T3>,
>(a: A, b: B, c: C) -> (r: Option<(T1, T2, T3)>)
    ensures
        r == tup3_spec(a.okay_spec(), b.okay_spec(), c.okay_spec()),
        r is Some <==> (a.okay_spec() is Some && b.okay_spec() is Some
            && c.okay_spec() is Some),
        (a.okay_spec() is Some && b.okay_spec() is Some && c.okay_spec() is Some) ==> r == Some(
            (a.okay_spec()->0, b.okay_spec()->0, c.okay_spec()->0),
        ),
{
    let oa = a.okay();
    let ob = b.okay();
    let oc = c.okay();
    match (oa, ob, oc) {
        (Some(x1), Some(x2), Some(x3)) => Some((x1, x2, x3)),
        _ => None,
    }
}

/// The combined result for four inputs: present exactly when all of them are.
pub open spec fn tup4_spec<T1, T2, T3, T4>(
    a: Option<T1>, b: Option<T2>, c: Option<T3>, d: Option<T4>,
) -> Option<(T1, T2, T3, T4)> {
    match (a, b, c, d) {
        (Some(x1), Some(x2), Some(x3), Some(x4)) => Some((x1, x2, x3, x4)),
        _ => None,
    }
}

/// Combine four inputs into an `Option` of a quadruple, in argument order.
pub fn ok_tup4<
    T1, T2, T3, T4, A: Optionaler<T1>, B: Optionaler<T2>, C: Optionaler<T3>,
    D: Optionaler<T4>,
>(a: A, b: B, c: C, d: D) -> (r: Option<(T1, T2, T3, T4)>)
    ensures
        r == tup4_spec(a.okay_spec(), b.okay_spec(), c.okay_spec(), d.okay_spec()),
        r is Some <==> (a.okay_spec() is Some && b.okay_spec() is Some
            && c.okay_spec() is Some && d.okay_spec() is Some),
        (a.okay_spec() is Some && b.okay_spec() is Some && c.okay_spec() is Some
            && d.okay_spec() is Some) ==> r == Some(
            (a.okay_spec()->0, b.okay_spec()->0, c.okay_spec()->0, d.okay_spec()->0),
        ),
{
    let oa = a.okay();
    let ob = b.okay();
    let oc = c.okay();
    let od = d.okay();
    match (oa, ob, oc, od) {
        (Some(x1), Some(x2), Some(x3), Some(x4)) => Some((x1, x2, x3, x4)),
        _ => None,
    }
}

/// The combined result for five inputs: present exactly when all of them are.
pub open spec fn tup5_spec<T1, T2, T3, T4, T5>(
    a: Option<T1>, b: Option<T2>, c: Option<T3>, d: Option<T4>, e: Option<T5>,
) -> Option<(T1, T2, T3, T4, T5)> {
    match (a, b, c, d, e) {
        (Some(x1), Some(x2), Some(x3), Some(x4), Some(x5)) => Some((x1, x2, x3, x4, x5)),
        _ => None,
    }
}

/// Combine five inputs into an `Option` of a quintuple, in argument order.
pub fn ok_tup5<
    T1, T2, T3, T4, T5, A: Optionaler<T1>, B: Optionaler<T2>, C: Optionaler<T3>,
    D: Optionaler<T4>, E: Optionaler<T5>,
>(a: A, b: B, c: C, d: D, e: E) -> (r: Option<(T1, T2, T3, T4, T5)>)
    ensures
        r == tup5_spec(
            a.okay_spec(), b.okay_spec(), c.okay_spec(), d.okay_spec(), e.okay_spec(),
        ),
        r is Some <==> (a.okay_spec() is Some && b.okay_spec() is Some
            && c.okay_spec() is Some && d.okay_spec() is Some && e.okay_spec() is Some),
        (a.okay_spec() is Some && b.okay_spec() is Some && c.okay_spec() is Some
            && d.okay_spec() is Some && e.okay_spec() is Some) ==> r == Some(
            (
                a.okay_spec()->0, b.okay_spec()->0, c.okay_spec()->0, d.okay_spec()->0,
                e.okay_spec()->0,
            ),
        ),
{
    let oa = a.okay();
    let ob = b.okay();
    let oc = c.okay();
    let od = d.okay();
    let oe = e.okay();
    match (oa, ob, oc, od, oe) {
        (Some(x1), Some(x2), Some(x3), Some(x4), Some(x5)) => Some((x1, x2, x3, x4, x5)),
        _ => None,
    }
}

/// The combined result for six inputs: present exactly when all of them are.
pub open spec fn tup6_spec<T1, T2, T3, T4, T5, T6>(
    a: Option<T1>, b: Option<T2>, c: Option<T3>, d: Option<T4>, e: Option<T5>,
    f: Option<T6>,
) -> Option<(T1, T2, T3, T4, T5, T6)> {
    match (a, b, c, d, e, f) {
        (
            Some(x1), Some(x2), Some(x3), Some(x4), Some(x5), Some(x6),
        ) => Some((x1, x2, x3, x4, x5, x6)),
        _ => None,
    }
}

/// Combine six inputs into an `Option` of a sextuple, in argument order.
pub fn ok_tup6<
    T1, T2, T3, T4, T5, T6, A: Optionaler<T1>, B: Optionaler<T2>, C: Optionaler<T3>,
    D: Optionaler<T4>, E: Optionaler<T5>, F: Optionaler<T6>,
>(a: A, b: B, c: C, d: D, e: E, f: F) -> (r: Option<(T1, T2, T3, T4, T5, T6)>)
    ensures
        r == tup6_spec(
            a.okay_spec(), b.okay_spec(), c.okay_spec(), d.okay_spec(), e.okay_spec(),
            f.okay_spec(),
        ),
        r is Some <==> (a.okay_spec() is Some && b.okay_spec() is Some
            && c.okay_spec() is Some && d.okay_spec() is Some && e.okay_spec() is Some
            && f.okay_spec() is Some),
        (a.okay_spec() is Some && b.okay_spec() is Some && c.okay_spec() is Some
            && d.okay_spec() is Some && e.okay_spec() is Some && f.okay_spec() is Some) ==> r == Some(
            (
                a.okay_spec()->0, b.okay_spec()->0, c.okay_spec()->0, d.okay_spec()->0,
                e.okay_spec()->0, f.okay_spec()->0,
            ),
        ),
{
    let oa = a.okay();
    let ob = b.okay();
    let oc = c.okay();
    let od = d.okay();
    let oe = e.okay();
    let of = f.okay();
    match (oa, ob, oc, od, oe, of) {
        (
            Some(x1), Some(x2), Some(x3), Some(x4), Some(x5), Some(x6),
        ) => Some((x1, x2, x3, x4, x5, x6)),
        _ => None,
    }
}

/// The combined result for seven inputs: present exactly when all of them are.
pub open spec fn tup7_spec<T1, T2, T3, T4, T5, T6, T7>(
    a: Option<T1>, b: Option<T2>, c: Option<T3>, d: Option<T4>, e: Option<T5>,
    f: Option<T6>, g: Option<T7>,
) -> Option<(T1, T2, T3, T4, T5, T6, T7)> {
    match (a, b, c, d, e, f, g) {
        (
            Some(x1), Some(x2), Some(x3), Some(x4), Some(x5), Some(x6), Some(x7),
        ) => Some((x1, x2, x3, x4, x5, x6, x7)),
        _ => None,
    }
}

/// Combine seven inputs into an `Option` of a septuple, in argument order.
pub fn ok_tup7<
    T1, T2, T3, T4, T5, T6, T7, A: Optionaler<T1>, B: Optionaler<T2>, C: Optionaler<T3>,
    D: Optionaler<T4>, E: Optionaler<T5>, F: Optionaler<T6>, G: Optionaler<T7>,
>(a: A, b: B, c: C, d: D, e: E, f: F, g: G) -> (r: Option<(T1, T2, T3, T4, T5, T6, T7)>)
    ensures
        r == tup7_spec(
            a.okay_spec(), b.okay_spec(), c.okay_spec(), d.okay_spec(), e.okay_spec(),
            f.okay_spec(), g.okay_spec(),
        ),
        r is Some <==> (a.okay_spec() is Some && b.okay_spec() is Some
            && c.okay_spec() is Some && d.okay_spec() is Some && e.okay_spec() is Some
            && f.okay_spec() is Some && g.okay_spec() is Some),
        (a.okay_spec() is Some && b.okay_spec() is Some && c.okay_spec() is Some
            && d.okay_spec() is Some && e.okay_spec() is Some && f.okay_spec() is Some
            && g.okay_spec() is Some) ==> r == Some(
            (
                a.okay_spec()->0, b.okay_spec()->0, c.okay_spec()->0, d.okay_spec()->0,
                e.okay_spec()->0, f.okay_spec()->0, g.okay_spec()->0,
            ),
        ),
{
    let oa = a.okay();
    let ob = b.okay();
    let oc = c.okay();
    let od = d.okay();
    let oe = e.okay();
    let of = f.okay();
    let og = g.okay();
    match (oa, ob, oc, od, oe, of, og) {
        (
            Some(x1), Some(x2), Some(x3), Some(x4), Some(x5), Some(x6), Some(x7),
        ) => Some((x1, x2, x3, x4, x5, x6, x7)),
        _ => None,
    }
}

/// The combined result for eight inputs: present exactly when all of them are.
pub open spec fn tup8_spec<T1, T2, T3, T4, T5, T6, T7, T8>(
    a: Option<T1>, b: Option<T2>, c: Option<T3>, d: Option<T4>, e: Option<T5>,
    f: Option<T6>, g: Option<T7>, h: Option<T8>,
) -> Option<(T1, T2, T3, T4, T5, T6, T7, T8)> {
    match (a, b, c, d, e, f, g, h) {
        (
            Some(x1), Some(x2), Some(x3), Some(x4), Some(x5), Some(x6), Some(x7), Some(x8),
        ) => Some((x1, x2, x3, x4, x5, x6, x7, x8)),
        _ => None,
    }
}

/// Combine eight inputs into an `Option` of an octuple, in argument order.
pub fn ok_tup8<
    T1, T2, T3, T4, T5, T6, T7, T8, A: Optionaler<T1>, B: Optionaler<T2>, C: Optionaler<T3>,
    D: Optionaler<T4>, E: Optionaler<T5>, F: Optionaler<T6>, G: Optionaler<T7>,
    H: Optionaler<T8>,
>(a: A, b: B, c: C, d: D, e: E, f: F, g: G, h: H) -> (r: Option<(T1, T2, T3, T4, T5, T6, T7, T8)>)
    ensures
        r == tup8_spec(
            a.okay_spec(), b.okay_spec(), c.okay_spec(), d.okay_spec(), e.okay_spec(),
            f.okay_spec(), g.okay_spec(), h.okay_spec(),
        ),
        r is Some <==> (a.okay_spec() is Some && b.okay_spec() is Some
            && c.okay_spec() is Some && d.okay_spec() is Some && e.okay_spec() is Some
            && f.okay_spec() is Some && g.okay_spec() is Some && h.okay_spec() is Some),
        (a.okay_spec() is Some && b.okay_spec() is Some && c.okay_spec() is Some
            && d.okay_spec() is Some && e.okay_spec() is Some && f.okay_spec() is Some
            && g.okay_spec() is Some && h.okay_spec() is Some) ==> r == Some(
            (
                a.okay_spec()->0, b.okay_spec()->0, c.okay_spec()->0, d.okay_spec()->0,
                e.okay_spec()->0, f.okay_spec()->0, g.okay_spec()->0, h.okay_spec()->0,
            ),
        ),
{
    let oa = a.okay();
    let ob = b.okay();
    let oc = c.okay();
    let od = d.okay();
    let oe = e.okay();
    let of = f.okay();
    let og = g.okay();
    let oh = h.okay();
    match (oa, ob, oc, od, oe, of, og, oh) {
        (
            Some(x1), Some(x2), Some(x3), Some(x4), Some(x5), Some(x6), Some(x7), Some(x8),
        ) => Some((x1, x2, x3, x4, x5, x6, x7, x8)),
        _ => None,
    }
}

/// The combined result for nine inputs: present exactly when all of them are.
pub open spec fn tup9_spec<T1, T2, T3, T4, T5, T6, T7, T8, T9>(
    a: Option<T1>, b: Option<T2>, c: Option<T3>, d: Option<T4>, e: Option<T5>,
    f: Option<T6>, g: Option<T7>, h: Option<T8>, i: Option<T9>,
) -> Option<(T1, T2, T3, T4, T5, T6, T7, T8, T9)> {
    match (a, b, c, d, e, f, g, h, i) {
        (
            Some(x1), Some(x2), Some(x3), Some(x4), Some(x5), Some(x6), Some(x7), Some(x8),
            Some(x9),
        ) => Some((x1, x2, x3, x4, x5, x6, x7, x8, x9)),
        _ => None,
    }
}

/// Combine nine inputs into an `Option` of a nonuple, in argument order.
pub fn ok_tup9<
    T1, T2, T3, T4, T5, T6, T7, T8, T9, A: Optionaler<T1>, B: Optionaler<T2>,
    C: Optionaler<T3>, D: Optionaler<T4>, E: Optionaler<T5>, F: Optionaler<T6>,
    G: Optionaler<T7>, H: Optionaler<T8>, I: Optionaler<T9>,
>(a: A, b: B, c: C, d: D, e: E, f: F, g: G, h: H, i: I) -> (r: Option<(T1, T2, T3, T4, T5, T6, T7, T8, T9)>)
    ensures
        r == tup9_spec(
            a.okay_spec(), b.okay_spec(), c.okay_spec(), d.okay_spec(), e.okay_spec(),
            f.okay_spec(), g.okay_spec(), h.okay_spec(), i.okay_spec(),
        ),
        r is Some <==> (a.okay_spec() is Some && b.okay_spec() is Some
            && c.okay_spec() is Some && d.okay_spec() is Some && e.okay_spec() is Some
            && f.okay_spec() is Some && g.okay_spec() is Some && h.okay_spec() is Some
            && i.okay_spec() is Some),
        (a.okay_spec() is Some && b.okay_spec() is Some && c.okay_spec() is Some
            && d.okay_spec() is Some && e.okay_spec() is Some && f.okay_spec() is Some
            && g.okay_spec() is Some && h.okay_spec() is Some && i.okay_spec() is Some) ==> r == Some(
            (
                a.okay_spec()->0, b.okay_spec()->0, c.okay_spec()->0, d.okay_spec()->0,
                e.okay_spec()->0, f.okay_spec()->0, g.okay_spec()->0, h.okay_spec()->0,
                i.okay_spec()->0,
            ),
        ),
{
    let oa = a.okay();
    let ob = b.okay();
    let oc = c.okay();
    let od = d.okay();
    let oe = e.okay();
    let of = f.okay();
    let og = g.okay();
    let oh = h.okay();
    let oi = i.okay();
    match (oa, ob, oc, od, oe, of, og, oh, oi) {
        (
            Some(x1), Some(x2), Some(x3), Some(x4), Some(x5), Some(x6), Some(x7), Some(x8),
            Some(x9),
        ) => Some((x1, x2, x3, x4, x5, x6, x7, x8, x9)),
        _ => None,
    }
}

/// The combined result for ten inputs: present exactly when all of them are.
pub open spec fn tup10_spec<T1, T2, T3, T4, T5, T6, T7, T8, T9, T10>(
    a: Option<T1>, b: Option<T2>, c: Option<T3>, d: Option<T4>, e: Option<T5>,
    f: Option<T6>, g: Option<T7>, h: Option<T8>, i: Option<T9>, j: Option<T10>,
) -> Option<(T1, T2, T3, T4, T5, T6, T7, T8, T9, T10)> {
    match (a, b, c, d, e, f, g, h, i, j) {
        (
            Some(x1), Some(x2), Some(x3), Some(x4), Some(x5), Some(x6), Some(x7), Some(x8),
            Some(x9), Some(x10),
        ) => Some((x1, x2, x3, x4, x5, x6, x7, x8, x9, x10)),
        _ => None,
    }
}

/// Combine ten inputs into an `Option` of a decuple, in argument order.
pub fn ok_tup10<
    T1, T2, T3, T4, T5, T6, T7, T8, T9, T10, A: Optionaler<T1>, B: Optionaler<T2>,
    C: Optionaler<T3>, D: Optionaler<T4>, E: Optionaler<T5>, F: Optionaler<T6>,
    G: Optionaler<T7>, H: Optionaler<T8>, I: Optionaler<T9>, J: Optionaler<T10>,
>(a: A, b: B, c: C, d: D, e: E, f: F, g: G, h: H, i: I, j: J) -> (r: Option<(T1, T2, T3, T4, T5, T6, T7, T8, T9, T10)>)
    ensures
        r == tup10_spec(
            a.okay_spec(), b.okay_spec(), c.okay_spec(), d.okay_spec(), e.okay_spec(),
            f.okay_spec(), g.okay_spec(), h.okay_spec(), i.okay_spec(), j.okay_spec(),
        ),
        r is Some <==> (a.okay_spec() is Some && b.okay_spec() is Some
            && c.okay_spec() is Some && d.okay_spec() is Some && e.okay_spec() is Some
            && f.okay_spec() is Some && g.okay_spec() is Some && h.okay_spec() is Some
            && i.okay_spec() is Some && j.okay_spec() is Some),
        (a.okay_spec() is Some && b.okay_spec() is Some && c.okay_spec() is Some
            && d.okay_spec() is Some && e.okay_spec() is Some && f.okay_spec() is Some
            && g.okay_spec() is Some && h.okay_spec() is Some && i.okay_spec() is Some
            && j.okay_spec() is Some) ==> r == Some(
            (
                a.okay_spec()->0, b.okay_spec()->0, c.okay_spec()->0, d.okay_spec()->0,
                e.okay_spec()->0, f.okay_spec()->0, g.okay_spec()->0, h.okay_spec()->0,
                i.okay_spec()->0, j.okay_spec()->0,
            ),
        ),
{
    let oa = a.okay();
    let ob = b.okay();
    let oc = c.okay();
    let od = d.okay();
    let oe = e.okay();
    let of = f.okay();
    let og = g.okay();
    let oh = h.okay();
    let oi = i.okay();
    let oj = j.okay();
    match (oa, ob, oc, od, oe, of, og, oh, oi, oj) {
        (
            Some(x1), Some(x2), Some(x3), Some(x4), Some(x5), Some(x6), Some(x7), Some(x8),
            Some(x9), Some(x10),
        ) => Some((x1, x2, x3, x4, x5, x6, x7, x8, x9, x10)),
        _ => None,
    }
}

/// Combining a single input behaves as the direct conversion of that input:
/// the results are present together, and the one tuple element is the
/// converted value itself.
pub proof fn lemma_single_input_is_pass_through<T1>(a: Option<T1>)
    ensures
        tup1_spec(a) is Some <==> a is Some,
        a is Some ==> tup1_spec(a)->0 == (a->0,),
        a is None ==> tup1_spec(a) is None,
{
}

} // verus!

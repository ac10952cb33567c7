//! Combine several "maybe a value" inputs into one `Option` of a tuple.
//!
//! Every input implements the [`Optionaler`] conversion contract: it turns
//! itself into an `Option` of its inner value, as a pure function of the
//! input alone. The combiners in [`combine`] convert each input in argument
//! order and return `Some` of the tuple of inner values exactly when every
//! conversion yielded `Some`; otherwise they return `None`, without saying
//! which input was absent. One combiner exists per supported arity, from one
//! through ten inputs; larger arities are not supported.

use vstd::prelude::*;

pub mod combine;

pub use combine::ok_tup1;
pub use combine::ok_tup2;
pub use combine::ok_tup3;
pub use combine::ok_tup4;
pub use combine::ok_tup5;
pub use combine::ok_tup6;
pub use combine::ok_tup7;
pub use combine::ok_tup8;
pub use combine::ok_tup9;
pub use combine::ok_tup10;

verus! {

/// A type that can be converted into an `Option`.
///
/// The conversion must be a pure function of the input alone: `okay_spec`
/// names its result, and `okay` is required to return exactly that value.
pub trait Optionaler<T>: Sized {
    /// The value that converting `self` yields.
    spec fn okay_spec(self) -> Option<T>;

    /// Convert `self` into an `Option`.
    fn okay(self) -> (r: Option<T>)
        ensures
            r == self.okay_spec(),
    ;
}

impl<T> Optionaler<T> for Option<T> {
    /// An `Option` passes through unchanged.
    open spec fn okay_spec(self) -> Option<T> {
        self
    }

    fn okay(self) -> (r: Option<T>) {
        self
    }
}

impl<'a, T: Copy> Optionaler<T> for &'a Option<T> {
    /// A borrowed `Option` copies the inner value out if present.
    open spec fn okay_spec(self) -> Option<T> {
        *self
    }

    fn okay(self) -> (r: Option<T>) {
        match self {
            Some(x) => Some(*x),
            None => None,
        }
    }
}

impl<T, E> Optionaler<T> for Result<T, E> {
    /// A `Result`'s success value is present; its error is discarded.
    open spec fn okay_spec(self) -> Option<T> {
        match self {
            Ok(x) => Some(x),
            Err(_) => None,
        }
    }

    fn okay(self) -> (r: Option<T>) {
        match self {
            Ok(x) => Some(x),
            Err(_) => None,
        }
    }
}

impl<'a, T: Copy, E> Optionaler<T> for &'a Result<T, E> {
    /// A borrowed `Result` copies the success value out; its error is
    /// discarded.
    open spec fn okay_spec(self) -> Option<T> {
        match *self {
            Ok(x) => Some(x),
            Err(_) => None,
        }
    }

    fn okay(self) -> (r: Option<T>) {
        match self {
            Ok(x) => Some(*x),
            Err(_) => None,
        }
    }
}

/// A native `Option` used as an input passes its value through unchanged.
pub proof fn lemma_option_passes_through<T>(o: Option<T>)
    ensures
        o.okay_spec() == o,
{
}

/// A `Result` input maps success to present, preserving the success value,
/// and failure to absent, discarding the error value.
pub proof fn lemma_result_maps_to_presence<T, E>(r: Result<T, E>)
    ensures
        r is Ok ==> r.okay_spec() == Some(r->Ok_0),
        r is Err ==> r.okay_spec() is None,
{
}

/// Converting the same input twice yields the same value both times: any two
/// results of `okay` on one input are equal, since each equals `okay_spec`
/// of that input.
pub proof fn lemma_conversion_idempotent<T, A: Optionaler<T>>(a: A, r1: Option<T>, r2: Option<T>)
    requires
        r1 == a.okay_spec(),
        r2 == a.okay_spec(),
    ensures
        r1 == r2,
{
}

} // verus!

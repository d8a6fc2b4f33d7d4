//! The function-first spellings of the fallible mapping combinators:
//! `bind_option` and `bind_result` take the function before the parser and
//! otherwise behave exactly like [`crate::combinators::map_option`] and
//! [`crate::combinators::map_result`].

use crate::combinators::map::{MapOptionP, MapResultP};
use crate::funcs::{MapOptFn, MapResFn};
use crate::parsable::Parsable;
use vstd::prelude::*;

verus! {

/// The result of `parser`, transformed by the partial function `func`.
pub fn bind_option<F, P>(func: F, parser: P) -> (r: MapOptionP<P, F>) where
    P: Parsable,
    F: MapOptFn<In = P::Result>,

    ensures
        r == (MapOptionP { p: parser, f: func }),
{
    MapOptionP { p: parser, f: func }
}

/// The result of `parser`, transformed by the fallible function `func`; an
/// error from `func` lands in the log.
pub fn bind_result<F, P>(func: F, parser: P) -> (r: MapResultP<P, F>) where
    P: Parsable,
    F: MapResFn<In = P::Result>,

    ensures
        r == (MapResultP { p: parser, f: func }),
{
    MapResultP { p: parser, f: func }
}

/// The fallible mapping combinators as methods.
pub trait MonadicExt: Parsable {
    /// The result of this parser, transformed by the partial function
    /// `func`.
    fn bind_option<F: MapOptFn<In = Self::Result>>(self, func: F) -> (r: MapOptionP<Self, F>)
        ensures
            r == (MapOptionP { p: self, f: func }),
    {
        MapOptionP { p: self, f: func }
    }

    /// The result of this parser, transformed by the fallible function
    /// `func`.
    fn bind_result<F: MapResFn<In = Self::Result>>(self, func: F) -> (r: MapResultP<Self, F>)
        ensures
            r == (MapResultP { p: self, f: func }),
    {
        MapResultP { p: self, f: func }
    }
}

impl<P: Parsable> MonadicExt for P {

}

} // verus!

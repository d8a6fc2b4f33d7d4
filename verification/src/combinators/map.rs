//! Mapping combinators: transform the result of a parser with a total,
//! partial or fallible function. Failure of the function is a parse failure,
//! with the stream rolled back.

use crate::funcs::{MapFn, MapOptFn, MapResFn};
use crate::logger::{Msg, MsgBody, ParseLogger};
use crate::model::{MsgBodyModel, MsgModel, Outcome, StreamModel};
use crate::parsable::Parsable;
use crate::primitives::CharStream;
use vstd::prelude::*;

verus! {

/// [`map`]: a parser whose result is `f` of what `p` parses.
///
/// Satisfies the functor laws: mapping with the identity changes nothing, and
/// mapping with `f` then `g` is mapping with their composition (see
/// [`lemma_map_identity`] and [`lemma_map_composition`]).
#[derive(Clone, Copy, Debug)]
pub struct MapP<P, F> {
    pub p: P,
    pub f: F,
}

impl<P: Parsable, F: MapFn<In = P::Result>> Parsable for MapP<P, F> {
    type Result = F::Out;

    /// Run `p`; on success apply `f` to its result; on failure restore the
    /// stream and keep `p`'s log.
    open spec fn spec_parse(&self, s: StreamModel, l: Seq<MsgModel>) -> Outcome<
        <F::Out as DeepView>::V,
    > {
        let o = self.p.spec_parse(s, l);
        match o.res {
            Some(v) => Outcome::done(self.f.spec_apply(v), o.stream, o.log),
            None => Outcome::failed(s, o.log),
        }
    }

    proof fn lemma_parse(&self, s: StreamModel, l: Seq<MsgModel>) {
        self.p.lemma_parse(s, l);
        crate::model::lemma_advances_refl(s);
    }

    fn parse(&self, stream: &mut CharStream, logger: &mut ParseLogger) -> (r: Option<F::Out>) {
        let st = stream.clone();
        match self.p.parse(stream, logger) {
            Some(v) => Some(self.f.apply(v)),
            None => {
                *stream = st;
                None
            },
        }
    }
}

/// The result of `p`, transformed by `f`.
pub fn map<P: Parsable, F: MapFn<In = P::Result>>(p: P, f: F) -> (r: MapP<P, F>)
    ensures
        r == (MapP { p, f }),
{
    MapP { p, f }
}

/// The message [`map_option`] appends to the log when it fails.
pub open spec fn map_option_err() -> MsgModel {
    MsgModel::Error(
        MsgBodyModel { text: "map_option received a function that yielded None."@, pos: None },
    )
}

/// [`map_option`]: like [`map`], but the function may reject the value with
/// `None`, which becomes a parse failure.
#[derive(Clone, Copy, Debug)]
pub struct MapOptionP<P, F> {
    pub p: P,
    pub f: F,
}

impl<P: Parsable, F: MapOptFn<In = P::Result>> Parsable for MapOptionP<P, F> {
    type Result = F::Out;

    /// Run `p`, then apply `f`; if `p` fails or `f` rejects the value, fail
    /// with the stream restored and an error message appended to the log.
    open spec fn spec_parse(&self, s: StreamModel, l: Seq<MsgModel>) -> Outcome<
        <F::Out as DeepView>::V,
    > {
        let o = self.p.spec_parse(s, l);
        match o.res {
            Some(v) => match self.f.spec_apply(v) {
                Some(b) => Outcome::done(b, o.stream, o.log),
                None => Outcome::failed(s, o.log.push(map_option_err())),
            },
            None => Outcome::failed(s, o.log.push(map_option_err())),
        }
    }

    proof fn lemma_parse(&self, s: StreamModel, l: Seq<MsgModel>) {
        self.p.lemma_parse(s, l);
        crate::model::lemma_advances_refl(s);
    }

    fn parse(&self, stream: &mut CharStream, logger: &mut ParseLogger) -> (r: Option<F::Out>) {
        let st = stream.clone();
        match self.p.parse(stream, logger) {
            Some(v) => match self.f.apply(v) {
                Some(b) => Some(b),
                None => {
                    logger.add(
                        Msg::Error(
                            MsgBody::new(
                                "map_option received a function that yielded None.",
                                None,
                            ),
                        ),
                    );
                    *stream = st;
                    None
                },
            },
            None => {
                logger.add(
                    Msg::Error(
                        MsgBody::new("map_option received a function that yielded None.", None),
                    ),
                );
                *stream = st;
                None
            },
        }
    }
}

/// The result of `p`, transformed by the partial function `f`; `None` from
/// `f` is a parse failure.
pub fn map_option<P: Parsable, F: MapOptFn<In = P::Result>>(p: P, f: F) -> (r: MapOptionP<P, F>)
    ensures
        r == (MapOptionP { p, f }),
{
    MapOptionP { p, f }
}

/// The message [`map_result`] appends to the log when the function fails
/// with the given error text.
pub open spec fn map_result_err(e: Seq<char>) -> MsgModel {
    MsgModel::Error(MsgBodyModel { text: e, pos: None })
}

/// [`map_result`]: like [`map`], but the function may fail with a message,
/// which is appended to the log as an error.
#[derive(Clone, Copy, Debug)]
pub struct MapResultP<P, F> {
    pub p: P,
    pub f: F,
}

impl<P: Parsable, F: MapResFn<In = P::Result>> Parsable for MapResultP<P, F> {
    type Result = F::Out;

    /// Run `p`, then apply `f`; an error from `f` becomes a parse failure
    /// with the stream restored and the error's text appended to the log.
    open spec fn spec_parse(&self, s: StreamModel, l: Seq<MsgModel>) -> Outcome<
        <F::Out as DeepView>::V,
    > {
        let o = self.p.spec_parse(s, l);
        match o.res {
            Some(v) => match self.f.spec_apply(v) {
                Ok(b) => Outcome::done(b, o.stream, o.log),
                Err(e) => Outcome::failed(s, o.log.push(map_result_err(e))),
            },
            None => Outcome::failed(o.stream, o.log),
        }
    }

    proof fn lemma_parse(&self, s: StreamModel, l: Seq<MsgModel>) {
        self.p.lemma_parse(s, l);
        crate::model::lemma_advances_refl(s);
    }

    fn parse(&self, stream: &mut CharStream, logger: &mut ParseLogger) -> (r: Option<F::Out>) {
        let st = stream.clone();
        match self.p.parse(stream, logger) {
            Some(v) => match self.f.apply(v) {
                Ok(b) => Some(b),
                Err(e) => {
                    logger.add(Msg::Error(MsgBody { msg: e, pos: None }));
                    *stream = st;
                    None
                },
            },
            None => None,
        }
    }
}

/// The result of `p`, transformed by the fallible function `f`; an error
/// from `f` is a parse failure whose message lands in the log.
pub fn map_result<P: Parsable, F: MapResFn<In = P::Result>>(p: P, f: F) -> (r: MapResultP<P, F>)
    ensures
        r == (MapResultP { p, f }),
{
    MapResultP { p, f }
}

/// The mapping combinators as methods.
pub trait MapExt: Parsable {
    /// The result of this parser, transformed by `f`.
    fn map<F: MapFn<In = Self::Result>>(self, f: F) -> (r: MapP<Self, F>)
        ensures
            r == (MapP { p: self, f }),
    {
        MapP { p: self, f }
    }

    /// The result of this parser, transformed by the partial function `f`.
    fn map_option<F: MapOptFn<In = Self::Result>>(self, f: F) -> (r: MapOptionP<Self, F>)
        ensures
            r == (MapOptionP { p: self, f }),
    {
        MapOptionP { p: self, f }
    }

    /// The result of this parser, transformed by the fallible function `f`.
    fn map_result<F: MapResFn<In = Self::Result>>(self, f: F) -> (r: MapResultP<Self, F>)
        ensures
            r == (MapResultP { p: self, f }),
    {
        MapResultP { p: self, f }
    }
}

impl<P: Parsable> MapExt for P {

}

/// Functor identity: mapping with a function that changes nothing changes
/// nothing — result, stream and log are those of `p` alone.
pub proof fn lemma_map_identity<P: Parsable, F: MapFn<In = P::Result, Out = P::Result>>(
    p: P,
    f: F,
    s: StreamModel,
    l: Seq<MsgModel>,
)
    requires
        s.wf(),
        forall|x: <P::Result as DeepView>::V| #[trigger] f.spec_apply(x) == x,
    ensures
        (MapP { p, f }).spec_parse(s, l) == p.spec_parse(s, l),
{
    p.lemma_parse(s, l);
}

/// Functor composition: mapping with `f` and then with `g` is mapping once
/// with `g` after `f`.
pub proof fn lemma_map_composition<
    P: Parsable,
    F: MapFn<In = P::Result>,
    G: MapFn<In = F::Out>,
    H: MapFn<In = P::Result, Out = G::Out>,
>(
    p: P,
    f: F,
    g: G,
    h: H,
    s: StreamModel,
    l: Seq<MsgModel>,
)
    requires
        forall|x: <P::Result as DeepView>::V| #[trigger] h.spec_apply(x) == g.spec_apply(
            f.spec_apply(x),
        ),
    ensures
        (MapP { p: MapP { p, f }, f: g }).spec_parse(s, l) == (MapP { p, f: h }).spec_parse(s, l),
{
}

} // verus!

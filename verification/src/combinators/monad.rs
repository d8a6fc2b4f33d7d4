//! Monadic chaining: run a parser, hand its result to a continuation that
//! builds the next parser, and run that on what remains — the mechanism for
//! context-sensitive grammars. If either stage fails, the stream is restored
//! to before the first.

use crate::combinators::basic::Pure;
use crate::funcs::{BindFn, DupVal};
use crate::logger::ParseLogger;
use crate::model::{lemma_advances_refl, lemma_advances_trans, MsgModel, Outcome, StreamModel};
use crate::parsable::Parsable;
use crate::primitives::CharStream;
use vstd::prelude::*;

verus! {

/// [`bind`]: run `p`; on success, build the next parser from the result and
/// run it on the advanced stream; on failure of either stage, roll back to
/// before `p`.
///
/// Satisfies the monad laws: see [`lemma_bind_pure_left`],
/// [`lemma_bind_pure_right`] and [`lemma_bind_associative`].
#[derive(Clone, Copy, Debug)]
pub struct BindP<P, F> {
    pub p: P,
    pub f: F,
}

impl<P, F> BindP<P, F> {
    pub fn new(p: P, f: F) -> (r: Self)
        ensures
            r == (BindP { p, f }),
    {
        BindP { p, f }
    }
}

impl<P: Parsable, F: BindFn<In = P::Result>> Parsable for BindP<P, F> {
    type Result = <F::P as Parsable>::Result;

    /// Run `p`; on success run the continuation's parser on what remains. A
    /// failure of either stage fails the whole, with the stream restored to
    /// before `p` and the failing stage's log kept.
    open spec fn spec_parse(&self, s: StreamModel, l: Seq<MsgModel>) -> Outcome<
        <<F::P as Parsable>::Result as DeepView>::V,
    > {
        let o1 = self.p.spec_parse(s, l);
        match o1.res {
            Some(v) => {
                let o2 = self.f.spec_step(v, o1.stream, o1.log);
                match o2.res {
                    Some(b) => Outcome::done(b, o2.stream, o2.log),
                    None => Outcome::failed(s, o2.log),
                }
            },
            None => Outcome::failed(s, o1.log),
        }
    }

    proof fn lemma_parse(&self, s: StreamModel, l: Seq<MsgModel>) {
        self.p.lemma_parse(s, l);
        let o1 = self.p.spec_parse(s, l);
        if o1.res is Some {
            let v = o1.res->0;
            self.f.lemma_step(v, o1.stream, o1.log);
            let o2 = self.f.spec_step(v, o1.stream, o1.log);
            if o2.res is Some {
                lemma_advances_trans(s, o1.stream, o2.stream);
            } else {
                lemma_advances_refl(s);
            }
        } else {
            lemma_advances_refl(s);
        }
    }

    fn parse(&self, stream: &mut CharStream, logger: &mut ParseLogger) -> (r: Option<
        <F::P as Parsable>::Result,
    >) {
        let ghost s0 = stream@;
        let st = stream.clone();
        match self.p.parse(stream, logger) {
            Some(x) => {
                proof {
                    self.p.lemma_parse(s0, old(logger)@);
                }
                let q = self.f.step(x);
                match q.parse(stream, logger) {
                    Some(b) => Some(b),
                    None => {
                        *stream = st;
                        None
                    },
                }
            },
            None => {
                *stream = st;
                None
            },
        }
    }
}

/// Run `p`, then the parser that `f` builds from `p`'s result.
pub fn bind<P: Parsable, F: BindFn<In = P::Result>>(p: P, f: F) -> (r: BindP<P, F>)
    ensures
        r == (BindP { p, f }),
{
    BindP { p, f }
}

/// The monadic combinator as a method.
pub trait MonadExt: Parsable {
    /// Run this parser, then the parser that `f` builds from its result.
    fn bind<F: BindFn<In = Self::Result>>(self, f: F) -> (r: BindP<Self, F>)
        ensures
            r == (BindP { p: self, f }),
    {
        BindP { p: self, f }
    }
}

impl<P: Parsable> MonadExt for P {

}

/// The continuation that wraps each value back into [`Pure`]: the right
/// identity of [`bind`].
#[derive(Debug)]
pub struct PureBind<A> {
    pub marker: core::marker::PhantomData<A>,
}

impl<A> Clone for PureBind<A> {
    fn clone(&self) -> (r: Self)
        ensures
            r == *self,
    {
        *self
    }
}

impl<A> Copy for PureBind<A> {

}

impl<A: DupVal> BindFn for PureBind<A> {
    type In = A;

    type P = Pure<A>;

    /// Succeed with the value handed in, touching nothing.
    open spec fn spec_step(&self, x: A::V, s: StreamModel, l: Seq<MsgModel>) -> Outcome<A::V> {
        Outcome::done(x, s, l)
    }

    proof fn lemma_step(&self, x: A::V, s: StreamModel, l: Seq<MsgModel>) {
        lemma_advances_refl(s);
    }

    fn step(&self, x: A) -> (q: Pure<A>) {
        Pure { x }
    }
}

/// The continuation that runs `f`'s parser and then `g`'s: what stands on
/// the right-hand side of the associativity law of [`bind`].
#[derive(Clone, Copy, Debug)]
pub struct BindAfter<F, G> {
    pub f: F,
    pub g: G,
}

impl<F: BindFn, G: BindFn<In = <F::P as Parsable>::Result> + Copy> BindFn for BindAfter<F, G> {
    type In = F::In;

    type P = BindP<F::P, G>;

    /// The meaning of `bind(f(x), g)`, run from the given stream and log.
    open spec fn spec_step(&self, x: <F::In as DeepView>::V, s: StreamModel, l: Seq<MsgModel>) -> Outcome<
        <<G::P as Parsable>::Result as DeepView>::V,
    > {
        let o2 = self.f.spec_step(x, s, l);
        match o2.res {
            Some(w) => {
                let o3 = self.g.spec_step(w, o2.stream, o2.log);
                match o3.res {
                    Some(u) => Outcome::done(u, o3.stream, o3.log),
                    None => Outcome::failed(s, o3.log),
                }
            },
            None => Outcome::failed(s, o2.log),
        }
    }

    proof fn lemma_step(&self, x: <F::In as DeepView>::V, s: StreamModel, l: Seq<MsgModel>) {
        self.f.lemma_step(x, s, l);
        let o2 = self.f.spec_step(x, s, l);
        if o2.res is Some {
            let w = o2.res->0;
            self.g.lemma_step(w, o2.stream, o2.log);
            let o3 = self.g.spec_step(w, o2.stream, o2.log);
            if o3.res is Some {
                lemma_advances_trans(s, o2.stream, o3.stream);
            } else {
                lemma_advances_refl(s);
            }
        } else {
            lemma_advances_refl(s);
        }
    }

    fn step(&self, x: F::In) -> (q: BindP<F::P, G>) {
        BindP { p: self.f.step(x), f: self.g }
    }
}

/// Monad left identity: binding a continuation onto [`pure`]`(x)` behaves
/// exactly like the parser the continuation builds from `x`.
pub proof fn lemma_bind_pure_left<A: DupVal, F: BindFn<In = A>>(
    x: A,
    f: F,
    s: StreamModel,
    l: Seq<MsgModel>,
)
    requires
        s.wf(),
    ensures
        (BindP { p: Pure { x }, f }).spec_parse(s, l) == f.spec_step(x.deep_view(), s, l),
{
    f.lemma_step(x.deep_view(), s, l);
}

/// Monad right identity: binding the [`Pure`]-wrapping continuation onto a
/// parser changes nothing — result, stream and log.
pub proof fn lemma_bind_pure_right<P: Parsable>(p: P, s: StreamModel, l: Seq<MsgModel>) where
    P::Result: DupVal,

    requires
        s.wf(),
    ensures
        (BindP {
            p,
            f: PureBind::<P::Result> { marker: core::marker::PhantomData },
        }).spec_parse(s, l) == p.spec_parse(s, l),
{
    p.lemma_parse(s, l);
}

/// Monad associativity: binding `f` and then `g` is binding the combined
/// continuation `bind(f(x), g)` once.
pub proof fn lemma_bind_associative<
    P: Parsable,
    F: BindFn<In = P::Result>,
    G: BindFn<In = <F::P as Parsable>::Result> + Copy,
>(p: P, f: F, g: G, s: StreamModel, l: Seq<MsgModel>)
    requires
        s.wf(),
    ensures
        (BindP { p: BindP { p, f }, f: g }).spec_parse(s, l) == (BindP {
            p,
            f: BindAfter { f, g },
        }).spec_parse(s, l),
{
}

} // verus!

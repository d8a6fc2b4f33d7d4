//! Applicative composition: run a parser whose result is a function value,
//! run a second parser, and apply the one to the other. Together with
//! [`crate::combinators::pure`] this satisfies the applicative laws.

use crate::combinators::basic::Pure;
use crate::funcs::MapFn;
use crate::logger::ParseLogger;
use crate::model::{lemma_advances_refl, lemma_advances_trans, MsgModel, Outcome, StreamModel};
use crate::parsable::Parsable;
use crate::primitives::CharStream;
use vstd::prelude::*;

verus! {

/// [`compose`]: run `pf` to obtain a function value, then `px` to obtain an
/// argument; succeed with the application, or fail with the stream restored
/// to before `pf`.
///
/// Satisfies the applicative laws: see [`lemma_compose_identity`],
/// [`lemma_compose_homomorphism`], [`lemma_compose_interchange`] and
/// [`lemma_compose_composition`].
#[derive(Clone, Copy, Debug)]
pub struct Compose<PF, PX> {
    pub pf: PF,
    pub px: PX,
}

impl<F, PF, PX> Parsable for Compose<PF, PX> where
    PX: Parsable,
    F: MapFn<In = PX::Result>,
    PF: Parsable<Result = F>,
 {
    type Result = F::Out;

    /// Run `pf`, then `px` on what remains; on double success apply the
    /// first result to the second. A failure of either fails the whole,
    /// with the stream restored and the failing parser's log kept.
    open spec fn spec_parse(&self, s: StreamModel, l: Seq<MsgModel>) -> Outcome<
        <F::Out as DeepView>::V,
    > {
        let o1 = self.pf.spec_parse(s, l);
        match o1.res {
            Some(f) => {
                let o2 = self.px.spec_parse(o1.stream, o1.log);
                match o2.res {
                    Some(x) => Outcome::done(f.spec_apply(x), o2.stream, o2.log),
                    None => Outcome::failed(s, o2.log),
                }
            },
            None => Outcome::failed(s, o1.log),
        }
    }

    proof fn lemma_parse(&self, s: StreamModel, l: Seq<MsgModel>) {
        self.pf.lemma_parse(s, l);
        let o1 = self.pf.spec_parse(s, l);
        if o1.res is Some {
            self.px.lemma_parse(o1.stream, o1.log);
            let o2 = self.px.spec_parse(o1.stream, o1.log);
            if o2.res is Some {
                lemma_advances_trans(s, o1.stream, o2.stream);
            } else {
                lemma_advances_refl(s);
            }
        } else {
            lemma_advances_refl(s);
        }
    }

    fn parse(&self, stream: &mut CharStream, logger: &mut ParseLogger) -> (r: Option<F::Out>) {
        let ghost s0 = stream@;
        let st = stream.clone();
        match self.pf.parse(stream, logger) {
            Some(f) => {
                proof {
                    self.pf.lemma_parse(s0, old(logger)@);
                    f.lemma_self_view();
                }
                match self.px.parse(stream, logger) {
                    Some(x) => Some(f.apply(x)),
                    None => {
                        *stream = st;
                        None
                    },
                }
            },
            None => {
                *stream = st;
                None
            },
        }
    }
}

/// Run `pf` for a function value, then `px` for its argument; the
/// application of the one to the other.
pub fn compose<F, PF, PX>(pf: PF, px: PX) -> (r: Compose<PF, PX>) where
    PX: Parsable,
    F: MapFn<In = PX::Result>,
    PF: Parsable<Result = F>,

    ensures
        r == (Compose { pf, px }),
{
    Compose { pf, px }
}

/// The applicative combinator as a method.
pub trait ApplicativeExt: Parsable {
    /// Run this parser for a function value, then `px` for its argument;
    /// apply the one to the other.
    fn compose<F, PX>(self, px: PX) -> (r: Compose<Self, PX>) where
        PX: Parsable,
        F: MapFn<In = PX::Result>,
        Self: Parsable<Result = F>,

        ensures
            r == (Compose { pf: self, px }),
    {
        Compose { pf: self, px }
    }
}

impl<P: Parsable> ApplicativeExt for P {

}

/// Applicative identity: composing `pure` of a function that changes
/// nothing with a parser behaves exactly like the parser alone.
pub proof fn lemma_compose_identity<F, P>(f: F, p: P, s: StreamModel, l: Seq<MsgModel>) where
    P: Parsable,
    F: MapFn<In = P::Result, Out = P::Result> + crate::funcs::DupVal,

    requires
        s.wf(),
        forall|x: <P::Result as DeepView>::V| #[trigger] f.spec_apply(x) == x,
    ensures
        (Compose { pf: Pure { x: f }, px: p }).spec_parse(s, l) == p.spec_parse(s, l),
{
    f.lemma_self_view();
    p.lemma_parse(s, l);
}

/// Applicative homomorphism: composing `pure` of a function with `pure` of
/// a value consumes nothing and succeeds with the application — exactly
/// what `pure` of the applied value would do.
pub proof fn lemma_compose_homomorphism<F, X>(f: F, x: X, s: StreamModel, l: Seq<MsgModel>) where
    X: crate::funcs::DupVal,
    F: MapFn<In = X> + crate::funcs::DupVal,

    ensures
        (Compose { pf: Pure { x: f }, px: Pure { x } }).spec_parse(s, l) == Outcome::done(
            f.spec_apply(x.deep_view()),
            s,
            l,
        ),
{
    f.lemma_self_view();
}

/// Application at a fixed argument: the mapper that takes a function value
/// and applies it to the captured argument. The right-hand witness of the
/// applicative interchange law.
#[derive(Debug)]
pub struct ApplyTo<X, F> {
    pub x: X,
    pub marker: core::marker::PhantomData<F>,
}

impl<X: Copy, F> Clone for ApplyTo<X, F> {
    fn clone(&self) -> (r: Self)
        ensures
            r == *self,
    {
        *self
    }
}

impl<X: Copy, F> Copy for ApplyTo<X, F> {

}

impl<X, F> DeepView for ApplyTo<X, F> {
    type V = ApplyTo<X, F>;

    open spec fn deep_view(&self) -> ApplyTo<X, F> {
        *self
    }
}

impl<X: Copy, F> crate::funcs::DupVal for ApplyTo<X, F> {
    fn dup(&self) -> (r: Self) {
        *self
    }
}

impl<X: DeepView + Copy, F: MapFn<In = X>> MapFn for ApplyTo<X, F> {
    type In = F;

    type Out = F::Out;

    open spec fn spec_apply(&self, f: F) -> <F::Out as DeepView>::V {
        f.spec_apply(self.x.deep_view())
    }

    proof fn lemma_self_view(&self) {
    }

    fn apply(&self, f: F) -> (r: F::Out) {
        proof {
            f.lemma_self_view();
        }
        f.apply(self.x)
    }
}

/// Applicative interchange: composing a function parser with `pure` of a
/// value is composing `pure` of application-at-that-value with the function
/// parser.
pub proof fn lemma_compose_interchange<F, PF, X>(pf: PF, x: X, s: StreamModel, l: Seq<MsgModel>) where
    X: crate::funcs::DupVal + Copy,
    F: MapFn<In = X> + crate::funcs::DupVal,
    PF: Parsable<Result = F>,

    requires
        s.wf(),
    ensures
        (Compose { pf, px: Pure { x } }).spec_parse(s, l) == (Compose {
            pf: Pure { x: ApplyTo::<X, F> { x, marker: core::marker::PhantomData } },
            px: pf,
        }).spec_parse(s, l),
{
    pf.lemma_parse(s, l);
}

/// The curried composer: takes `f`, then `g`, and stands for `f` after `g`.
/// The left-most witness of the applicative composition law.
#[derive(Debug)]
pub struct Composer<F, G> {
    pub marker: core::marker::PhantomData<(F, G)>,
}

/// The composer with its first argument fixed.
#[derive(Debug)]
pub struct ComposerWith<F, G> {
    pub f: F,
    pub marker: core::marker::PhantomData<G>,
}

impl<F: Copy, G> Clone for ComposerWith<F, G> {
    fn clone(&self) -> (r: Self)
        ensures
            r == *self,
    {
        *self
    }
}

impl<F: Copy, G> Copy for ComposerWith<F, G> {

}

/// Two mappers, composed: `f` after `g`.
#[derive(Debug)]
pub struct Composed<F, G> {
    pub f: F,
    pub g: G,
}

impl<F: Copy, G: Copy> Clone for Composed<F, G> {
    fn clone(&self) -> (r: Self)
        ensures
            r == *self,
    {
        *self
    }
}

impl<F: Copy, G: Copy> Copy for Composed<F, G> {

}

impl<F, G> Clone for Composer<F, G> {
    fn clone(&self) -> (r: Self)
        ensures
            r == *self,
    {
        *self
    }
}

impl<F, G> Copy for Composer<F, G> {

}

impl<F, G> DeepView for Composer<F, G> {
    type V = Composer<F, G>;

    open spec fn deep_view(&self) -> Composer<F, G> {
        *self
    }
}

impl<F, G> crate::funcs::DupVal for Composer<F, G> {
    fn dup(&self) -> (r: Self) {
        *self
    }
}

impl<G: MapFn, F: MapFn<In = G::Out>> MapFn for Composer<F, G> {
    type In = F;

    type Out = ComposerWith<F, G>;

    open spec fn spec_apply(&self, f: F) -> ComposerWith<F, G> {
        ComposerWith { f, marker: core::marker::PhantomData }
    }

    proof fn lemma_self_view(&self) {
    }

    fn apply(&self, f: F) -> (r: ComposerWith<F, G>) {
        proof {
            f.lemma_self_view();
        }
        ComposerWith { f, marker: core::marker::PhantomData }
    }
}

impl<F, G> DeepView for ComposerWith<F, G> {
    type V = ComposerWith<F, G>;

    open spec fn deep_view(&self) -> ComposerWith<F, G> {
        *self
    }
}

impl<G: MapFn, F: MapFn<In = G::Out> + Copy> MapFn for ComposerWith<F, G> {
    type In = G;

    type Out = Composed<F, G>;

    open spec fn spec_apply(&self, g: G) -> Composed<F, G> {
        Composed { f: self.f, g }
    }

    proof fn lemma_self_view(&self) {
    }

    fn apply(&self, g: G) -> (r: Composed<F, G>) {
        proof {
            g.lemma_self_view();
        }
        Composed { f: self.f, g }
    }
}

impl<F, G> DeepView for Composed<F, G> {
    type V = Composed<F, G>;

    open spec fn deep_view(&self) -> Composed<F, G> {
        *self
    }
}

impl<G: MapFn, F: MapFn<In = G::Out>> MapFn for Composed<F, G> {
    type In = G::In;

    type Out = F::Out;

    open spec fn spec_apply(&self, x: <G::In as DeepView>::V) -> <F::Out as DeepView>::V {
        self.f.spec_apply(self.g.spec_apply(x))
    }

    proof fn lemma_self_view(&self) {
    }

    fn apply(&self, x: G::In) -> (r: F::Out) {
        self.f.apply(self.g.apply(x))
    }
}

/// Applicative composition: composing `pf` with `compose(pg, px)` is
/// composing `pure` of the curried composer with `pf`, then `pg`, then
/// `px` — the whole outcome, log included, is the same.
pub proof fn lemma_compose_composition<F, G, PF, PG, PX>(
    pf: PF,
    pg: PG,
    px: PX,
    s: StreamModel,
    l: Seq<MsgModel>,
) where
    PX: Parsable,
    G: MapFn<In = PX::Result>,
    PG: Parsable<Result = G>,
    F: MapFn<In = G::Out> + Copy,
    PF: Parsable<Result = F>,

    requires
        s.wf(),
    ensures
        (Compose { pf, px: Compose { pf: pg, px } }).spec_parse(s, l) == (Compose {
            pf: Compose {
                pf: Compose {
                    pf: Pure { x: Composer::<F, G> { marker: core::marker::PhantomData } },
                    px: pf,
                },
                px: pg,
            },
            px,
        }).spec_parse(s, l),
{
    pf.lemma_parse(s, l);
    let o1 = pf.spec_parse(s, l);
    if o1.res is Some {
        pg.lemma_parse(o1.stream, o1.log);
    }
}

} // verus!

//! Sequencing: run one parser, then another, and fail as a whole — with the
//! stream rolled back to before the first — if either fails. `left`, `right`
//! and `mid` are thin projections over `and` chains.

use crate::funcs::{Fst, Mid3, Snd};
use crate::logger::ParseLogger;
use crate::model::{lemma_advances_refl, lemma_advances_trans, MsgModel, Outcome, StreamModel};
use crate::parsable::Parsable;
use crate::primitives::CharStream;
use vstd::prelude::*;

verus! {

/// [`and`]: run `p1`, then `p2` on what remains; succeed with the pair of
/// results, or fail with the stream restored to before `p1`. Partial
/// consumption is never retained on failure.
#[derive(Clone, Copy, Debug)]
pub struct And<P1, P2> {
    pub p1: P1,
    pub p2: P2,
}

impl<P1, P2> And<P1, P2> {
    pub fn new(p1: P1, p2: P2) -> (r: Self)
        ensures
            r == (And { p1, p2 }),
    {
        And { p1, p2 }
    }
}

impl<P1: Parsable, P2: Parsable> Parsable for And<P1, P2> {
    type Result = (P1::Result, P2::Result);

    /// Run `p1`; if it fails, fail with its log. Else run `p2` on the
    /// advanced stream; if it fails, restore the stream to before `p1` and
    /// keep `p2`'s log. On double success, the pair of results.
    open spec fn spec_parse(&self, s: StreamModel, l: Seq<MsgModel>) -> Outcome<
        (<P1::Result as DeepView>::V, <P2::Result as DeepView>::V),
    > {
        let o1 = self.p1.spec_parse(s, l);
        match o1.res {
            Some(a) => {
                let o2 = self.p2.spec_parse(o1.stream, o1.log);
                match o2.res {
                    Some(b) => Outcome::done((a, b), o2.stream, o2.log),
                    None => Outcome::failed(s, o2.log),
                }
            },
            None => Outcome::failed(s, o1.log),
        }
    }

    proof fn lemma_parse(&self, s: StreamModel, l: Seq<MsgModel>) {
        self.p1.lemma_parse(s, l);
        let o1 = self.p1.spec_parse(s, l);
        if o1.res is Some {
            self.p2.lemma_parse(o1.stream, o1.log);
            let o2 = self.p2.spec_parse(o1.stream, o1.log);
            if o2.res is Some {
                lemma_advances_trans(s, o1.stream, o2.stream);
            } else {
                lemma_advances_refl(s);
            }
        } else {
            lemma_advances_refl(s);
        }
    }

    fn parse(&self, stream: &mut CharStream, logger: &mut ParseLogger) -> (r: Option<
        (P1::Result, P2::Result),
    >) {
        let ghost s0 = stream@;
        let st = stream.clone();
        match self.p1.parse(stream, logger) {
            Some(a) => {
                proof {
                    self.p1.lemma_parse(s0, old(logger)@);
                }
                match self.p2.parse(stream, logger) {
                    Some(b) => {
                        let ghost av = a.deep_view();
                        let ghost bv = b.deep_view();
                        let r = (a, b);
                        proof {
                            assert(r.deep_view() == (av, bv));
                        }
                        Some(r)
                    },
                    None => {
                        *stream = st;
                        None
                    },
                }
            },
            None => {
                *stream = st;
                None
            },
        }
    }
}

/// Run `p1`, then `p2`; the pair of their results.
pub fn and<P1: Parsable, P2: Parsable>(p1: P1, p2: P2) -> (r: And<P1, P2>)
    ensures
        r == (And { p1, p2 }),
{
    And { p1, p2 }
}

/// Run `p1`, then `p2`; the result of `p1`. Same backtracking as [`and`].
pub fn left<P1: Parsable, P2: Parsable>(p1: P1, p2: P2) -> (r: crate::combinators::MapP<
    And<P1, P2>,
    Fst<P1::Result, P2::Result>,
>)
    ensures
        r == (crate::combinators::MapP {
            p: And { p1, p2 },
            f: Fst::<P1::Result, P2::Result> { marker: core::marker::PhantomData },
        }),
{
    crate::combinators::map::map(And { p1, p2 }, Fst { marker: core::marker::PhantomData })
}

/// Run `p1`, then `p2`; the result of `p2`. Same backtracking as [`and`].
pub fn right<P1: Parsable, P2: Parsable>(p1: P1, p2: P2) -> (r: crate::combinators::MapP<
    And<P1, P2>,
    Snd<P1::Result, P2::Result>,
>)
    ensures
        r == (crate::combinators::MapP {
            p: And { p1, p2 },
            f: Snd::<P1::Result, P2::Result> { marker: core::marker::PhantomData },
        }),
{
    crate::combinators::map::map(And { p1, p2 }, Snd { marker: core::marker::PhantomData })
}

/// Run `p1`, `p2`, `p3` in order; the result of `p2`. Same backtracking as
/// [`and`].
pub fn mid<P1: Parsable, P2: Parsable, P3: Parsable>(p1: P1, p2: P2, p3: P3) -> (r:
    crate::combinators::MapP<
        And<And<P1, P2>, P3>,
        Mid3<P1::Result, P2::Result, P3::Result>,
    >)
    ensures
        r == (crate::combinators::MapP {
            p: And { p1: And { p1, p2 }, p2: p3 },
            f: Mid3::<P1::Result, P2::Result, P3::Result> { marker: core::marker::PhantomData },
        }),
{
    crate::combinators::map::map(
        And { p1: And { p1, p2 }, p2: p3 },
        Mid3 { marker: core::marker::PhantomData },
    )
}

/// The sequencing combinators as methods.
pub trait SequentialExt: Parsable {
    /// Run this parser, then `p2`; the pair of results.
    fn and<P2: Parsable>(self, p2: P2) -> (r: And<Self, P2>)
        ensures
            r == (And { p1: self, p2 }),
    {
        And { p1: self, p2 }
    }

    /// Run this parser, then `p2`; keep this parser's result.
    fn left<P2: Parsable>(self, p2: P2) -> (r: crate::combinators::MapP<
        And<Self, P2>,
        Fst<Self::Result, P2::Result>,
    >)
        ensures
            r == (crate::combinators::MapP {
                p: And { p1: self, p2 },
                f: Fst::<Self::Result, P2::Result> { marker: core::marker::PhantomData },
            }),
    {
        left(self, p2)
    }

    /// Run this parser, then `p2`; keep `p2`'s result.
    fn right<P2: Parsable>(self, p2: P2) -> (r: crate::combinators::MapP<
        And<Self, P2>,
        Snd<Self::Result, P2::Result>,
    >)
        ensures
            r == (crate::combinators::MapP {
                p: And { p1: self, p2 },
                f: Snd::<Self::Result, P2::Result> { marker: core::marker::PhantomData },
            }),
    {
        right(self, p2)
    }

    /// Run this parser, `p2`, `p3` in order; keep `p2`'s result.
    fn mid<P2: Parsable, P3: Parsable>(self, p2: P2, p3: P3) -> (r: crate::combinators::MapP<
        And<And<Self, P2>, P3>,
        Mid3<Self::Result, P2::Result, P3::Result>,
    >)
        ensures
            r == (crate::combinators::MapP {
                p: And { p1: And { p1: self, p2 }, p2: p3 },
                f: Mid3::<Self::Result, P2::Result, P3::Result> {
                    marker: core::marker::PhantomData,
                },
            }),
    {
        mid(self, p2, p3)
    }
}

impl<P: Parsable> SequentialExt for P {

}

} // verus!

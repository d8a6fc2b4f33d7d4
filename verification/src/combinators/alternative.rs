//! Ordered choice: try the first parser; only if it fails, try the second
//! from the identical starting point. The first alternative that succeeds
//! wins. With [`Empty`] as identity, parsers form a monoid under [`or`].

use crate::combinators::basic::Empty;
use crate::logger::ParseLogger;
use crate::model::{lemma_advances_refl, MsgModel, Outcome, StreamModel};
use crate::parsable::Parsable;
use crate::primitives::CharStream;
use vstd::prelude::*;

verus! {

/// [`or`]: try `p1`; if it fails, restore stream and log and try `p2`; if
/// both fail, fail with the stream restored and `p2`'s log — the losing
/// first branch's diagnostics are discarded.
///
/// With [`Empty`], `or` is a monoid: see [`lemma_or_empty_left`],
/// [`lemma_or_empty_right`] and [`lemma_or_associative`].
#[derive(Clone, Copy, Debug)]
pub struct OrP<P1, P2> {
    pub p1: P1,
    pub p2: P2,
}

impl<A: DeepView, P1, P2> Parsable for OrP<P1, P2> where
    P1: Parsable<Result = A>,
    P2: Parsable<Result = A>,
 {
    type Result = A;

    /// Try `p1`; on success that is the outcome. Else try `p2` from the
    /// original stream and log; on success that is the outcome. If both
    /// fail, fail with the original stream and `p2`'s log.
    open spec fn spec_parse(&self, s: StreamModel, l: Seq<MsgModel>) -> Outcome<A::V> {
        let o1 = self.p1.spec_parse(s, l);
        if o1.res is Some {
            o1
        } else {
            let o2 = self.p2.spec_parse(s, l);
            if o2.res is Some {
                o2
            } else {
                Outcome::failed(s, o2.log)
            }
        }
    }

    proof fn lemma_parse(&self, s: StreamModel, l: Seq<MsgModel>) {
        self.p1.lemma_parse(s, l);
        self.p2.lemma_parse(s, l);
        lemma_advances_refl(s);
    }

    fn parse(&self, stream: &mut CharStream, logger: &mut ParseLogger) -> (r: Option<A>) {
        let st = stream.clone();
        let lg = logger.clone();
        match self.p1.parse(stream, logger) {
            Some(x) => Some(x),
            None => {
                *stream = st.clone();
                *logger = lg;
                match self.p2.parse(stream, logger) {
                    Some(x) => Some(x),
                    None => {
                        *stream = st;
                        None
                    },
                }
            },
        }
    }
}

/// Try `p1`; only if it fails, `p2`, from the identical starting point.
pub fn or<A: DeepView, P1, P2>(p1: P1, p2: P2) -> (r: OrP<P1, P2>) where
    P1: Parsable<Result = A>,
    P2: Parsable<Result = A>,

    ensures
        r == (OrP { p1, p2 }),
{
    OrP { p1, p2 }
}

/// [`optional`]: apply a parser at most once; never fails. The result wraps
/// the parsed value in `Some`, or is `None` — with nothing consumed and the
/// log untouched — where the parser failed.
#[derive(Clone, Copy, Debug)]
pub struct OptionalP<P> {
    pub p: P,
}

impl<P: Parsable> Parsable for OptionalP<P> {
    type Result = Option<P::Result>;

    /// Succeed always: with `Some` of `p`'s result and `p`'s effects, or —
    /// where `p` fails — with `None`, the stream restored and the log as it
    /// was.
    open spec fn spec_parse(&self, s: StreamModel, l: Seq<MsgModel>) -> Outcome<
        Option<<P::Result as DeepView>::V>,
    > {
        let o = self.p.spec_parse(s, l);
        match o.res {
            Some(v) => Outcome::done(Some(v), o.stream, o.log),
            None => Outcome::done(None, s, l),
        }
    }

    proof fn lemma_parse(&self, s: StreamModel, l: Seq<MsgModel>) {
        self.p.lemma_parse(s, l);
        lemma_advances_refl(s);
    }

    fn parse(&self, stream: &mut CharStream, logger: &mut ParseLogger) -> (r: Option<
        Option<P::Result>,
    >) {
        let st = stream.clone();
        let lg = logger.clone();
        match self.p.parse(stream, logger) {
            Some(x) => {
                let ghost xv = x.deep_view();
                let r = Some(x);
                proof {
                    assert(r.deep_view() == Some(xv));
                }
                Some(r)
            },
            None => {
                *stream = st;
                *logger = lg;
                let r = None::<P::Result>;
                proof {
                    assert(r.deep_view() is None);
                }
                Some(r)
            },
        }
    }
}

/// Apply `p` at most once; never fails.
pub fn optional<P: Parsable>(p: P) -> (r: OptionalP<P>)
    ensures
        r == (OptionalP { p }),
{
    OptionalP { p }
}

/// The choice combinators as methods.
pub trait AlternativeExt: Parsable {
    /// Try this parser; only if it fails, `p2`, from the identical starting
    /// point.
    fn or<P2: Parsable<Result = Self::Result>>(self, p2: P2) -> (r: OrP<Self, P2>)
        ensures
            r == (OrP { p1: self, p2 }),
    {
        OrP { p1: self, p2 }
    }

    /// Apply this parser at most once; never fails.
    fn optional(self) -> (r: OptionalP<Self>)
        ensures
            r == (OptionalP { p: self }),
    {
        OptionalP { p: self }
    }
}

impl<P: Parsable> AlternativeExt for P {

}

/// Left identity of the monoid: a choice whose first branch is [`Empty`]
/// behaves exactly like its second branch — result, stream and log.
pub proof fn lemma_or_empty_left<P: Parsable>(p: P, s: StreamModel, l: Seq<MsgModel>)
    requires
        s.wf(),
    ensures
        (OrP { p1: Empty::<P::Result> { marker: core::marker::PhantomData }, p2: p }).spec_parse(
            s,
            l,
        ) == p.spec_parse(s, l),
{
    p.lemma_parse(s, l);
}

/// Right identity of the monoid: a choice whose second branch is [`Empty`]
/// returns the same result and leaves the same stream as its first branch
/// alone. (The log may differ: where the first branch fails, the choice
/// restores the log that the failed branch had replaced.)
pub proof fn lemma_or_empty_right<P: Parsable>(p: P, s: StreamModel, l: Seq<MsgModel>)
    requires
        s.wf(),
    ensures
        ({
            let o1 = (OrP {
                p1: p,
                p2: Empty::<P::Result> { marker: core::marker::PhantomData },
            }).spec_parse(s, l);
            let o2 = p.spec_parse(s, l);
            o1.res == o2.res && o1.stream == o2.stream
        }),
{
    p.lemma_parse(s, l);
}

/// Associativity of the monoid: nesting of choices does not matter — the
/// whole outcome, log included, is the same.
pub proof fn lemma_or_associative<A: DeepView, P1, P2, P3>(
    p1: P1,
    p2: P2,
    p3: P3,
    s: StreamModel,
    l: Seq<MsgModel>,
) where P1: Parsable<Result = A>, P2: Parsable<Result = A>, P3: Parsable<Result = A>
    requires
        s.wf(),
    ensures
        (OrP { p1: OrP { p1, p2 }, p2: p3 }).spec_parse(s, l) == (OrP {
            p1,
            p2: OrP { p1: p2, p2: p3 },
        }).spec_parse(s, l),
{
}

} // verus!

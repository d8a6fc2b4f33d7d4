//! The two degenerate parsers: `empty`, which always fails and touches
//! nothing, and `pure`, which always succeeds with a captured value and
//! consumes nothing.

use crate::funcs::DupVal;
use crate::logger::ParseLogger;
use crate::model::{lemma_advances_refl, MsgModel, Outcome, StreamModel};
use crate::parsable::Parsable;
use crate::primitives::CharStream;
use vstd::prelude::*;

verus! {

/// The parser that consumes nothing and always fails, without touching the
/// log: the identity of [`crate::combinators::or`].
#[derive(Debug)]
pub struct Empty<A> {
    pub marker: core::marker::PhantomData<A>,
}

impl<A> Clone for Empty<A> {
    fn clone(&self) -> (r: Self)
        ensures
            r == *self,
    {
        *self
    }
}

impl<A> Copy for Empty<A> {

}

impl<A: DeepView> Parsable for Empty<A> {
    type Result = A;

    /// Fail, leaving stream and log untouched.
    open spec fn spec_parse(&self, s: StreamModel, l: Seq<MsgModel>) -> Outcome<A::V> {
        Outcome::failed(s, l)
    }

    proof fn lemma_parse(&self, s: StreamModel, l: Seq<MsgModel>) {
        lemma_advances_refl(s);
    }

    fn parse(&self, stream: &mut CharStream, logger: &mut ParseLogger) -> (r: Option<A>) {
        None
    }
}

/// A parser that consumes no input and always fails.
pub fn empty<A: DeepView>() -> (r: Empty<A>) {
    Empty { marker: core::marker::PhantomData }
}

/// The parser that consumes nothing and always succeeds with a copy of the
/// captured value: the identity of [`crate::combinators::bind`] and
/// [`crate::combinators::compose`].
#[derive(Clone, Copy, Debug)]
pub struct Pure<A> {
    pub x: A,
}

impl<A: DupVal> Parsable for Pure<A> {
    type Result = A;

    /// Succeed with the captured value, leaving stream and log untouched.
    open spec fn spec_parse(&self, s: StreamModel, l: Seq<MsgModel>) -> Outcome<A::V> {
        Outcome::done(self.x.deep_view(), s, l)
    }

    proof fn lemma_parse(&self, s: StreamModel, l: Seq<MsgModel>) {
        lemma_advances_refl(s);
    }

    fn parse(&self, stream: &mut CharStream, logger: &mut ParseLogger) -> (r: Option<A>) {
        Some(self.x.dup())
    }
}

/// A parser that consumes no input and always succeeds with (a copy of) `x`.
pub fn pure<A: DupVal>(x: A) -> (r: Pure<A>)
    ensures
        r == (Pure { x }),
{
    Pure { x }
}

} // verus!

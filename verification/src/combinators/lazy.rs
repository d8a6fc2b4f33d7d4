//! Deferred construction: a parser built only when parsing actually
//! happens. A [`LazyDef`] names the construction; [`Lazy`] runs it on each
//! attempt, so a grammar can be assembled without paying for parts that are
//! never reached.

use crate::logger::ParseLogger;
use crate::model::{MsgModel, Outcome, StreamModel};
use crate::parsable::Parsable;
use crate::primitives::CharStream;
use vstd::prelude::*;

verus! {

/// A deferred parser construction: `body` builds the parser when it is
/// first needed.
pub trait LazyDef: Sized {
    type Res: DeepView;

    type Body: Parsable<Result = Self::Res>;

    /// The parser this definition builds, as a value.
    spec fn spec_body(&self) -> Self::Body;

    /// Build the parser: exactly what `spec_body` says.
    fn body(&self) -> (b: Self::Body)
        ensures
            b == self.spec_body(),
    ;
}

/// [`lazy`]: a parser that builds its body anew on every attempt and runs
/// it. Construction is deferred to parse time.
#[derive(Clone, Copy, Debug)]
pub struct Lazy<D> {
    pub def: D,
}

impl<D> Lazy<D> {
    pub fn new(def: D) -> (r: Self)
        ensures
            r == (Lazy { def }),
    {
        Lazy { def }
    }
}

impl<D: LazyDef> Parsable for Lazy<D> {
    type Result = D::Res;

    /// Exactly what the deferred body does.
    open spec fn spec_parse(&self, s: StreamModel, l: Seq<MsgModel>) -> Outcome<
        <D::Res as DeepView>::V,
    > {
        self.def.spec_body().spec_parse(s, l)
    }

    proof fn lemma_parse(&self, s: StreamModel, l: Seq<MsgModel>) {
        self.def.spec_body().lemma_parse(s, l);
    }

    fn parse(&self, stream: &mut CharStream, logger: &mut ParseLogger) -> (r: Option<D::Res>) {
        let b = self.def.body();
        b.parse(stream, logger)
    }
}

/// The parser that defers to `def`'s body at parse time.
pub fn lazy<D: LazyDef>(def: D) -> (r: Lazy<D>)
    ensures
        r == (Lazy { def }),
{
    Lazy { def }
}

} // verus!

//! The fixpoint combinator: recursive grammars without infinite
//! construction-time recursion. A grammar rule that refers to itself is
//! written as a [`FixDef`]: a definition that, handed a parser standing for
//! the rule itself, builds one more level of the rule's body. Expansion
//! happens at parse time, one level per recursive occurrence.
//!
//! Each [`Fix`] carries a recursion budget. A recursive occurrence costs one
//! unit; when the budget is exhausted the parser fails cleanly, consuming
//! nothing. A grammar whose every recursive occurrence first consumes at
//! least one character needs no more budget than the input is long. (Left
//! recursion is not supported: it burns the budget without consuming.)

use crate::logger::ParseLogger;
use crate::model::{lemma_advances_refl, MsgModel, Outcome, StreamModel};
use crate::parsable::Parsable;
use crate::primitives::CharStream;
use vstd::prelude::*;

verus! {

/// A self-referential grammar rule: `body` builds one level of the rule,
/// with `rec` standing for the rule itself.
pub trait FixDef: Sized {
    type Res: DeepView;

    type Body: Parsable<Result = Self::Res>;

    /// The rule's body, as a value: `rec` stands for the whole rule.
    spec fn spec_body(&self, rec: Fix<Self>) -> Self::Body;

    /// Build the rule's body: exactly what `spec_body` says.
    fn body(&self, rec: Fix<Self>) -> (b: Self::Body)
        ensures
            b == self.spec_body(rec),
    ;
}

/// [`fix`]: the parser for a self-referential rule, with a recursion
/// budget. Freshly constructed it is unexpanded; each `parse` expands the
/// body one level, handing it a parser for the rule with one unit less
/// budget.
#[derive(Clone, Copy, Debug)]
pub struct Fix<D> {
    pub def: D,
    pub fuel: usize,
}

impl<D: FixDef + Copy> Parsable for Fix<D> {
    type Result = D::Res;

    /// With budget left, one level of the body, recursively; with none,
    /// fail without touching stream or log.
    open spec fn spec_parse(&self, s: StreamModel, l: Seq<MsgModel>) -> Outcome<
        <D::Res as DeepView>::V,
    >
        decreases self.fuel,
    {
        if self.fuel == 0 {
            Outcome::failed(s, l)
        } else {
            self.def.spec_body(
                Fix { def: self.def, fuel: (self.fuel - 1) as usize },
            ).spec_parse(s, l)
        }
    }

    proof fn lemma_parse(&self, s: StreamModel, l: Seq<MsgModel>)
        decreases self.fuel,
    {
        if self.fuel == 0 {
            lemma_advances_refl(s);
        } else {
            self.def.spec_body(
                Fix { def: self.def, fuel: (self.fuel - 1) as usize },
            ).lemma_parse(s, l);
        }
    }

    fn parse(&self, stream: &mut CharStream, logger: &mut ParseLogger) -> (r: Option<D::Res>)
        decreases self.fuel,
    {
        if self.fuel == 0 {
            None
        } else {
            let b = self.def.body(Fix { def: self.def, fuel: self.fuel - 1 });
            b.parse(stream, logger)
        }
    }
}

/// The parser for the self-referential rule `def`, willing to expand at
/// most `fuel` recursive occurrences.
pub fn fix<D: FixDef + Copy>(def: D, fuel: usize) -> (r: Fix<D>)
    ensures
        r == (Fix { def, fuel }),
{
    Fix { def, fuel }
}

} // verus!

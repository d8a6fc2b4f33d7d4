//! The central abstraction: anything that can attempt to consume a prefix of a
//! [`CharStream`], mutating the stream and the diagnostic log, and returning
//! an optional result.
//!
//! Every implementation carries the same three-part contract:
//! - `spec_parse` says, as a mathematical function, what one attempt returns
//!   and what stream and log it leaves behind;
//! - `parse` is proved to do exactly that;
//! - `lemma_parse` is the proof, owed by every combinator, that an attempt
//!   only ever consumes a prefix and that a failed attempt leaves the stream
//!   exactly as it found it (the rollback invariant).

use crate::logger::ParseLogger;
use crate::model::{advances, MsgModel, Outcome, StreamModel};
use crate::primitives::CharStream;
use vstd::prelude::*;

verus! {

/// The parsable capability. `Result` is the type of the parsed value; its
/// deep view is what the model speaks of.
pub trait Parsable: Sized {
    type Result: DeepView;

    /// What one parse attempt does, given the stream and log it starts from:
    /// its result, and the stream and log it leaves behind.
    spec fn spec_parse(&self, s: StreamModel, l: Seq<MsgModel>) -> Outcome<
        <Self::Result as DeepView>::V,
    >;

    /// The two invariants every parser owes its callers: an attempt only ever
    /// consumes a prefix of a well-formed stream, and a failed attempt leaves
    /// the stream bit for bit as it found it.
    proof fn lemma_parse(&self, s: StreamModel, l: Seq<MsgModel>)
        requires
            s.wf(),
        ensures
            ({
                let o = self.spec_parse(s, l);
                &&& o.stream.wf()
                &&& advances(s, o.stream)
                &&& (o.res is None ==> o.stream == s)
            }),
    ;

    /// Attempt to parse a prefix of `stream`, appending diagnostics to
    /// `logger`: does exactly what `spec_parse` says.
    fn parse(&self, stream: &mut CharStream, logger: &mut ParseLogger) -> (r: Option<
        Self::Result,
    >)
        requires
            old(stream)@.wf(),
        ensures
            ({
                let o = self.spec_parse(old(stream)@, old(logger)@);
                &&& final(stream)@ == o.stream
                &&& final(logger)@ == o.log
                &&& match r {
                    Some(v) => o.res == Some(v.deep_view()),
                    None => o.res is None,
                }
            }),
    ;

    /// The single-shot entry point: parse with a fresh, empty log and hand
    /// both the result and the log back.
    fn exec(&self, stream: &mut CharStream) -> (r: (Option<Self::Result>, ParseLogger))
        requires
            old(stream)@.wf(),
        ensures
            ({
                let o = self.spec_parse(old(stream)@, Seq::<MsgModel>::empty());
                &&& final(stream)@ == o.stream
                &&& final(stream)@.wf()
                &&& r.1@ == o.log
                &&& match r.0 {
                    Some(v) => o.res == Some(v.deep_view()),
                    None => o.res is None,
                }
            }),
    {
        let ghost s0 = stream@;
        let mut logger = ParseLogger::default();
        let r = self.parse(stream, &mut logger);
        proof {
            self.lemma_parse(s0, Seq::<MsgModel>::empty());
        }
        (r, logger)
    }
}

impl<P: Parsable> Parsable for &P {
    type Result = P::Result;

    open spec fn spec_parse(&self, s: StreamModel, l: Seq<MsgModel>) -> Outcome<
        <P::Result as DeepView>::V,
    > {
        (**self).spec_parse(s, l)
    }

    proof fn lemma_parse(&self, s: StreamModel, l: Seq<MsgModel>) {
        (**self).lemma_parse(s, l);
    }

    fn parse(&self, stream: &mut CharStream, logger: &mut ParseLogger) -> (r: Option<
        P::Result,
    >) {
        (**self).parse(stream, logger)
    }
}

impl<P: Parsable> Parsable for Box<P> {
    type Result = P::Result;

    open spec fn spec_parse(&self, s: StreamModel, l: Seq<MsgModel>) -> Outcome<
        <P::Result as DeepView>::V,
    > {
        (**self).spec_parse(s, l)
    }

    proof fn lemma_parse(&self, s: StreamModel, l: Seq<MsgModel>) {
        (**self).lemma_parse(s, l);
    }

    fn parse(&self, stream: &mut CharStream, logger: &mut ParseLogger) -> (r: Option<
        P::Result,
    >) {
        (**self).parse(stream, logger)
    }
}

/// The rollback invariant, stated once for every parser: whenever a parse
/// attempt fails, the stream it leaves behind is exactly the stream it was
/// given — remaining content, position and all.
pub proof fn lemma_rollback<P: Parsable>(p: P, s: StreamModel, l: Seq<MsgModel>)
    requires
        s.wf(),
    ensures
        p.spec_parse(s, l).res is None ==> p.spec_parse(s, l).stream == s,
{
    p.lemma_parse(s, l);
}

/// Parse with a fresh log: the function form of [`Parsable::exec`].
pub fn parse<P: Parsable>(parser: &P, stream: &mut CharStream) -> (r: (
    Option<P::Result>,
    ParseLogger,
))
    requires
        old(stream)@.wf(),
    ensures
        ({
            let o = parser.spec_parse(old(stream)@, Seq::<MsgModel>::empty());
            &&& final(stream)@ == o.stream
            &&& final(stream)@.wf()
            &&& r.1@ == o.log
            &&& match r.0 {
                Some(v) => o.res == Some(v.deep_view()),
                None => o.res is None,
            }
        }),
{
    parser.exec(stream)
}

/// A named wrapper around any parser, so that a combinator chain can be
/// stored and passed on without repeating its structural type.
#[derive(Clone, Copy, Debug)]
pub struct Parser<P: Parsable>(pub P);

impl<P: Parsable> Parser<P> {
    pub fn new(parser: P) -> (r: Self)
        ensures
            r == Parser(parser),
    {
        Parser(parser)
    }

    /// The wrapped parser, by value.
    pub fn unwrap(self) -> (r: P)
        ensures
            r == self.0,
    {
        self.0
    }

    /// The wrapped parser, by reference.
    pub fn inspect(&self) -> (r: &P)
        ensures
            *r == self.0,
    {
        &self.0
    }
}

impl<P: Parsable> Parsable for Parser<P> {
    type Result = P::Result;

    open spec fn spec_parse(&self, s: StreamModel, l: Seq<MsgModel>) -> Outcome<
        <P::Result as DeepView>::V,
    > {
        self.0.spec_parse(s, l)
    }

    proof fn lemma_parse(&self, s: StreamModel, l: Seq<MsgModel>) {
        self.0.lemma_parse(s, l);
    }

    fn parse(&self, stream: &mut CharStream, logger: &mut ParseLogger) -> (r: Option<
        P::Result,
    >) {
        self.0.parse(stream, logger)
    }
}

} // verus!

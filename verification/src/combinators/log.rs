//! Logging combinators: annotate a parser so that, when it fails, one more
//! message is appended to the log — without discarding what is already
//! there — and a recovery combinator that turns failure into a default.

use crate::funcs::DupVal;
use crate::logger::{Msg, MsgBody, ParseLogger};
use crate::model::{lemma_advances_refl, MsgModel, Outcome, StreamModel};
use crate::parsable::Parsable;
use crate::primitives::CharStream;
use vstd::prelude::*;

verus! {

/// [`info`], [`warn`], [`error`]: run `p`; when it fails, append the carried
/// message to the log. Success is untouched.
#[derive(Clone, Debug)]
pub struct LogP<P> {
    pub p: P,
    pub msg: Msg,
}

impl<P> LogP<P> {
    pub fn new(p: P, msg: Msg) -> (r: Self)
        ensures
            r == (LogP { p, msg }),
    {
        LogP { p, msg }
    }
}

impl<P: Parsable> Parsable for LogP<P> {
    type Result = P::Result;

    /// Run `p`; on failure append the carried message to whatever `p` left
    /// in the log.
    open spec fn spec_parse(&self, s: StreamModel, l: Seq<MsgModel>) -> Outcome<
        <P::Result as DeepView>::V,
    > {
        let o = self.p.spec_parse(s, l);
        match o.res {
            Some(v) => o,
            None => Outcome::failed(o.stream, o.log.push(self.msg@)),
        }
    }

    proof fn lemma_parse(&self, s: StreamModel, l: Seq<MsgModel>) {
        self.p.lemma_parse(s, l);
    }

    fn parse(&self, stream: &mut CharStream, logger: &mut ParseLogger) -> (r: Option<
        P::Result,
    >) {
        match self.p.parse(stream, logger) {
            Some(x) => Some(x),
            None => {
                logger.add(self.msg.clone());
                None
            },
        }
    }
}

/// Append an informational message to the log whenever `p` fails.
pub fn info<P: Parsable>(p: P, msg: &str) -> (r: LogP<P>)
    ensures
        r.p == p,
        r.msg@ == crate::model::MsgModel::Info(
            crate::model::MsgBodyModel { text: msg@, pos: None },
        ),
{
    LogP { p, msg: Msg::Info(MsgBody::new(msg, None)) }
}

/// Append a warning to the log whenever `p` fails.
pub fn warn<P: Parsable>(p: P, msg: &str) -> (r: LogP<P>)
    ensures
        r.p == p,
        r.msg@ == crate::model::MsgModel::Warn(
            crate::model::MsgBodyModel { text: msg@, pos: None },
        ),
{
    LogP { p, msg: Msg::Warn(MsgBody::new(msg, None)) }
}

/// Append an error to the log whenever `p` fails.
pub fn error<P: Parsable>(p: P, msg: &str) -> (r: LogP<P>)
    ensures
        r.p == p,
        r.msg@ == crate::model::MsgModel::Error(
            crate::model::MsgBodyModel { text: msg@, pos: None },
        ),
{
    LogP { p, msg: Msg::Error(MsgBody::new(msg, None)) }
}

/// [`LogExt::recover`]: run `p`; where it fails, succeed with a copy of a
/// default value instead, consuming nothing further.
#[derive(Clone, Copy, Debug)]
pub struct RecoverP<P, A> {
    pub p: P,
    pub x: A,
}

impl<A, P> Parsable for RecoverP<P, A> where A: DupVal, P: Parsable<Result = A> {
    type Result = A;

    /// Run `p`; on failure succeed with the default value, leaving stream
    /// and log as `p` left them.
    open spec fn spec_parse(&self, s: StreamModel, l: Seq<MsgModel>) -> Outcome<A::V> {
        let o = self.p.spec_parse(s, l);
        match o.res {
            Some(v) => o,
            None => Outcome::done(self.x.deep_view(), o.stream, o.log),
        }
    }

    proof fn lemma_parse(&self, s: StreamModel, l: Seq<MsgModel>) {
        self.p.lemma_parse(s, l);
    }

    fn parse(&self, stream: &mut CharStream, logger: &mut ParseLogger) -> (r: Option<A>) {
        match self.p.parse(stream, logger) {
            Some(x) => Some(x),
            None => Some(self.x.dup()),
        }
    }
}

/// [`LogExt::inspect`]: run `p` and succeed always, with `p`'s outcome and
/// a snapshot of the stream it left behind.
#[derive(Clone, Debug)]
pub struct InspectP<P> {
    pub p: P,
}

impl<P: Parsable> Parsable for InspectP<P> {
    type Result = (Option<P::Result>, CharStream);

    /// Succeed with `p`'s own result — present or absent — paired with the
    /// stream as `p` left it.
    open spec fn spec_parse(&self, s: StreamModel, l: Seq<MsgModel>) -> Outcome<
        (Option<<P::Result as DeepView>::V>, StreamModel),
    > {
        let o = self.p.spec_parse(s, l);
        Outcome::done((o.res, o.stream), o.stream, o.log)
    }

    proof fn lemma_parse(&self, s: StreamModel, l: Seq<MsgModel>) {
        self.p.lemma_parse(s, l);
    }

    fn parse(&self, stream: &mut CharStream, logger: &mut ParseLogger) -> (r: Option<
        (Option<P::Result>, CharStream),
    >) {
        let inner = self.p.parse(stream, logger);
        let ghost iv = inner.deep_view();
        let snap = stream.clone();
        let out = (inner, snap);
        proof {
            assert(out.deep_view() == (iv, out.1.deep_view()));
            if out.0 is Some {
                assert(iv == Some((out.0->0).deep_view()));
            } else {
                assert(iv is None);
            }
        }
        Some(out)
    }
}

/// The logging combinators as methods.
pub trait LogExt: Parsable {
    /// Append an informational message to the log whenever this parser
    /// fails.
    fn info(self, msg: &str) -> (r: LogP<Self>)
        ensures
            r.p == self,
            r.msg@ == crate::model::MsgModel::Info(
                crate::model::MsgBodyModel { text: msg@, pos: None },
            ),
    {
        info(self, msg)
    }

    /// Append a warning to the log whenever this parser fails.
    fn warn(self, msg: &str) -> (r: LogP<Self>)
        ensures
            r.p == self,
            r.msg@ == crate::model::MsgModel::Warn(
                crate::model::MsgBodyModel { text: msg@, pos: None },
            ),
    {
        warn(self, msg)
    }

    /// Append an error to the log whenever this parser fails.
    fn error(self, msg: &str) -> (r: LogP<Self>)
        ensures
            r.p == self,
            r.msg@ == crate::model::MsgModel::Error(
                crate::model::MsgBodyModel { text: msg@, pos: None },
            ),
    {
        error(self, msg)
    }

    /// Run this parser and succeed always, with its outcome and a snapshot
    /// of the stream it left behind.
    fn inspect(self) -> (r: InspectP<Self>)
        ensures
            r == (InspectP { p: self }),
    {
        InspectP { p: self }
    }

    /// Where this parser fails, succeed with a copy of `x` instead.
    fn recover(self, x: Self::Result) -> (r: RecoverP<Self, Self::Result>) where
        Self::Result: DupVal,

        ensures
            r == (RecoverP { p: self, x }),
    {
        RecoverP { p: self, x }
    }
}

impl<P: Parsable> LogExt for P {

}

} // verus!

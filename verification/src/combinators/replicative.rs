//! Repetition: apply a parser again and again, collecting the results.
//! `many` always succeeds, possibly with nothing; `some` demands at least
//! one success. The effects of the failing final attempt are discarded.
//!
//! A repetition stops after an iteration that succeeded without consuming
//! input: a non-productive parser would otherwise repeat forever on the
//! same spot.

use crate::logger::ParseLogger;
use crate::model::{advances, lemma_advances_refl, lemma_advances_trans, MsgModel, Outcome,
    StreamModel};
use crate::parsable::Parsable;
use crate::primitives::CharStream;
use vstd::prelude::*;

verus! {

/// What repetition of `p` yields from the given stream and log: the
/// collected results, and the stream and log after the last kept iteration.
/// Failing attempts leave no trace; an iteration that succeeds without
/// consuming is the last one kept.
pub open spec fn spec_repeat<P: Parsable>(p: P, s: StreamModel, l: Seq<MsgModel>) -> (
    Seq<<P::Result as DeepView>::V>,
    StreamModel,
    Seq<MsgModel>,
)
    decreases s.rest.len(),
{
    let o = p.spec_parse(s, l);
    match o.res {
        Some(v) => {
            if o.stream.rest.len() < s.rest.len() {
                let (vs, s2, l2) = spec_repeat(p, o.stream, o.log);
                (seq![v] + vs, s2, l2)
            } else {
                (seq![v], o.stream, o.log)
            }
        },
        None => (Seq::empty(), s, l),
    }
}

/// Repetition only ever consumes a prefix, keeps the stream well formed,
/// and collects nothing exactly when the first attempt fails — in which
/// case stream and log are exactly as before.
pub proof fn lemma_repeat<P: Parsable>(p: P, s: StreamModel, l: Seq<MsgModel>)
    requires
        s.wf(),
    ensures
        ({
            let (vs, s2, l2) = spec_repeat(p, s, l);
            &&& s2.wf()
            &&& advances(s, s2)
            &&& (vs.len() == 0 <==> p.spec_parse(s, l).res is None)
            &&& (vs.len() == 0 ==> s2 == s && l2 == l)
        }),
    decreases s.rest.len(),
{
    p.lemma_parse(s, l);
    let o = p.spec_parse(s, l);
    if o.res is Some {
        if o.stream.rest.len() < s.rest.len() {
            lemma_repeat(p, o.stream, o.log);
            let (vs, s2, l2) = spec_repeat(p, o.stream, o.log);
            lemma_advances_trans(s, o.stream, s2);
        }
    } else {
        lemma_advances_refl(s);
    }
}

/// [`many`]: apply `p` zero or more times, collecting the results; never
/// fails. See [`lemma_many_total`].
#[derive(Clone, Copy, Debug)]
pub struct ManyP<P> {
    pub p: P,
}

impl<P: Parsable> Parsable for ManyP<P> {
    type Result = Vec<P::Result>;

    /// Succeed with whatever repetition of `p` collects, leaving stream and
    /// log at the last kept iteration.
    open spec fn spec_parse(&self, s: StreamModel, l: Seq<MsgModel>) -> Outcome<
        Seq<<P::Result as DeepView>::V>,
    > {
        let (vs, s2, l2) = spec_repeat(self.p, s, l);
        Outcome::done(vs, s2, l2)
    }

    proof fn lemma_parse(&self, s: StreamModel, l: Seq<MsgModel>) {
        lemma_repeat(self.p, s, l);
    }

    fn parse(&self, stream: &mut CharStream, logger: &mut ParseLogger) -> (r: Option<
        Vec<P::Result>,
    >)
        decreases old(stream)@.rest.len(),
    {
        let ghost s0 = stream@;
        let ghost l0 = logger@;
        let st = stream.clone();
        let lg = logger.clone();
        let before = stream.index();
        match self.p.parse(stream, logger) {
            Some(x) => {
                proof {
                    self.p.lemma_parse(s0, l0);
                }
                let ghost xv = x.deep_view();
                if stream.index() > before {
                    match self.parse(stream, logger) {
                        Some(mut v) => {
                            let ghost tail = v.deep_view();
                            v.insert(0, x);
                            proof {
                                assert(v.deep_view() =~= seq![xv] + tail) by {
                                    assert(forall|k: int|
                                        0 <= k < tail.len() ==> v@[k + 1].deep_view()
                                            == #[trigger] tail[k]);
                                }
                            }
                            Some(v)
                        },
                        None => {
                            // Never reached: repetition always succeeds.
                            proof {
                                assert(false);
                            }
                            None
                        },
                    }
                } else {
                    let mut v: Vec<P::Result> = Vec::new();
                    v.push(x);
                    proof {
                        assert(v.deep_view() =~= seq![xv]);
                    }
                    Some(v)
                }
            },
            None => {
                *stream = st;
                *logger = lg;
                let v: Vec<P::Result> = Vec::new();
                proof {
                    assert(v.deep_view() =~= Seq::<<P::Result as DeepView>::V>::empty());
                }
                Some(v)
            },
        }
    }
}

/// Apply `p` as many times as possible, zero or more; always succeeds.
pub fn many<P: Parsable>(p: P) -> (r: ManyP<P>)
    ensures
        r == (ManyP { p }),
{
    ManyP { p }
}

/// [`some`]: apply `p` one or more times, collecting the results; fails —
/// with the stream rolled back and the first attempt's log kept — if the
/// very first attempt fails. See [`lemma_some_vs_many`].
#[derive(Clone, Copy, Debug)]
pub struct SomeP<P> {
    pub p: P,
}

impl<P: Parsable> Parsable for SomeP<P> {
    type Result = Vec<P::Result>;

    /// If the first attempt fails, fail with the stream as it was and that
    /// attempt's log. Otherwise collect exactly what repetition collects.
    open spec fn spec_parse(&self, s: StreamModel, l: Seq<MsgModel>) -> Outcome<
        Seq<<P::Result as DeepView>::V>,
    > {
        let o1 = self.p.spec_parse(s, l);
        if o1.res is None {
            Outcome::failed(s, o1.log)
        } else {
            let (vs, s2, l2) = spec_repeat(self.p, s, l);
            Outcome::done(vs, s2, l2)
        }
    }

    proof fn lemma_parse(&self, s: StreamModel, l: Seq<MsgModel>) {
        self.p.lemma_parse(s, l);
        lemma_repeat(self.p, s, l);
        lemma_advances_refl(s);
    }

    fn parse(&self, stream: &mut CharStream, logger: &mut ParseLogger) -> (r: Option<
        Vec<P::Result>,
    >) {
        let ghost s0 = stream@;
        let ghost l0 = logger@;
        let st = stream.clone();
        let before = stream.index();
        match self.p.parse(stream, logger) {
            Some(x) => {
                proof {
                    self.p.lemma_parse(s0, l0);
                }
                let ghost xv = x.deep_view();
                if stream.index() > before {
                    let rest = ManyP { p: &self.p };
                    proof {
                        lemma_repeat_ref(&self.p, stream@, logger@);
                    }
                    match rest.parse(stream, logger) {
                        Some(mut v) => {
                            let ghost tail = v.deep_view();
                            v.insert(0, x);
                            proof {
                                assert(v.deep_view() =~= seq![xv] + tail) by {
                                    assert(forall|k: int|
                                        0 <= k < tail.len() ==> v@[k + 1].deep_view()
                                            == #[trigger] tail[k]);
                                }
                            }
                            Some(v)
                        },
                        None => {
                            // Never reached: repetition always succeeds.
                            proof {
                                assert(false);
                            }
                            None
                        },
                    }
                } else {
                    let mut v: Vec<P::Result> = Vec::new();
                    v.push(x);
                    proof {
                        assert(v.deep_view() =~= seq![xv]);
                    }
                    Some(v)
                }
            },
            None => {
                *stream = st;
                None
            },
        }
    }
}

/// Repetition of a parser and repetition of a reference to it collect the
/// very same things.
proof fn lemma_repeat_ref<P: Parsable>(p: &P, s: StreamModel, l: Seq<MsgModel>)
    ensures
        spec_repeat(p, s, l) == spec_repeat(*p, s, l),
    decreases s.rest.len(),
{
    let o = p.spec_parse(s, l);
    if o.res is Some && o.stream.rest.len() < s.rest.len() {
        lemma_repeat_ref(p, o.stream, o.log);
    }
}

/// Apply `p` as many times as possible, at least once.
pub fn some<P: Parsable>(p: P) -> (r: SomeP<P>)
    ensures
        r == (SomeP { p }),
{
    SomeP { p }
}

/// The repetition combinators as methods.
pub trait ReplicativeExt: Parsable {
    /// Apply this parser as many times as possible, zero or more.
    fn many(self) -> (r: ManyP<Self>)
        ensures
            r == (ManyP { p: self }),
    {
        ManyP { p: self }
    }

    /// Apply this parser as many times as possible, at least once.
    fn some(self) -> (r: SomeP<Self>)
        ensures
            r == (SomeP { p: self }),
    {
        SomeP { p: self }
    }
}

impl<P: Parsable> ReplicativeExt for P {

}

/// `many` is total: it never fails, and on an input where `p` does not
/// match it collects nothing, consumes nothing, and leaves the log as it
/// was.
pub proof fn lemma_many_total<P: Parsable>(p: P, s: StreamModel, l: Seq<MsgModel>)
    requires
        s.wf(),
    ensures
        ({
            let o = (ManyP { p }).spec_parse(s, l);
            &&& o.res is Some
            &&& (p.spec_parse(s, l).res is None ==> o == Outcome::<
                Seq<<P::Result as DeepView>::V>,
            >::done(Seq::empty(), s, l))
        }),
{
    lemma_repeat(p, s, l);
}

/// `some` versus `many`: `some` fails exactly where `many` collects
/// nothing; everywhere else the two return the same results, leave the
/// same stream, and leave the same log.
pub proof fn lemma_some_vs_many<P: Parsable>(p: P, s: StreamModel, l: Seq<MsgModel>)
    requires
        s.wf(),
    ensures
        ({
            let om = (ManyP { p }).spec_parse(s, l);
            let os = (SomeP { p }).spec_parse(s, l);
            &&& (os.res is None <==> om.res == Some(Seq::<<P::Result as DeepView>::V>::empty()))
            &&& (os.res is Some ==> os == om)
        }),
{
    lemma_repeat(p, s, l);
}

} // verus!

//! The primitive recognizers: a single given character, a single character
//! that satisfies a condition, and a literal string. Each consumes exactly
//! what it recognizes, and on failure restores the stream and replaces the
//! log with one error message naming its own reason.

use crate::logger::{Msg, MsgBody, ParseLogger};
use crate::model::{MsgBodyModel, MsgModel, Outcome, StreamModel};
use crate::parsable::Parsable;
use crate::primitives::stream::CharStream;
use crate::text::push_char;
use vstd::prelude::*;
use vstd::string::StrSliceExecFns;
use vstd::string::StringExecFns;

verus! {

/// The text of the message every lexer logs at the end of the input.
pub open spec fn eof_text() -> Seq<char> {
    "unexpected end of input."@
}

/// The text [`SatisfyP`] logs when `got` fails its condition.
pub open spec fn satisfy_err_text(got: char) -> Seq<char> {
    "'"@ + seq![got] + "' does not satisfy required conditions."@
}

/// The text [`LiteralP`] logs when the input does not start with `expected`.
pub open spec fn literal_err_text(expected: Seq<char>) -> Seq<char> {
    "expecting \""@ + expected + "\"."@
}

/// The single error message a lexer leaves in the log: `text`, at the
/// position of the stream before the failed attempt.
pub open spec fn lexer_err(text: Seq<char>, s: StreamModel) -> Seq<MsgModel> {
    seq![MsgModel::Error(MsgBodyModel { text, pos: Some(s.spec_pos()) })]
}

/// A condition on a single character, with its specification: what
/// [`satisfy`] consumes is decided by `spec_check`.
pub trait CharCond: Sized {
    /// Whether the condition holds of `c`.
    spec fn spec_check(&self, c: char) -> bool;

    /// Decide the condition: returns exactly what `spec_check` says.
    fn check(&self, c: &char) -> (r: bool)
        ensures
            r == self.spec_check(*c),
    ;
}

/// Recognizer for one given character: consumes exactly that character, and
/// judges it like [`satisfy`] with an equality condition would, down to the
/// failure message.
#[derive(Clone, Copy, Debug, PartialEq, Eq)]
pub struct CharP {
    pub expected: char,
}

impl Parsable for CharP {
    type Result = char;

    /// Consume the expected character; otherwise fail, restore the stream,
    /// and replace the log with one error message.
    open spec fn spec_parse(&self, s: StreamModel, l: Seq<MsgModel>) -> Outcome<char> {
        if s.rest.len() == 0 {
            Outcome::failed(s, lexer_err(eof_text(), s))
        } else if s.rest[0] == self.expected {
            Outcome::done(self.expected, s.advanced(self.expected), l)
        } else {
            Outcome::failed(s, lexer_err(satisfy_err_text(s.rest[0]), s))
        }
    }

    proof fn lemma_parse(&self, s: StreamModel, l: Seq<MsgModel>) {
        if s.rest.len() > 0 && s.rest[0] == self.expected {
            let a = s.advanced(self.expected);
            assert(a.rest =~= s.rest.skip(1));
        } else {
            assert(s.rest.skip(0) =~= s.rest);
        }
    }

    fn parse(&self, stream: &mut CharStream, logger: &mut ParseLogger) -> (r: Option<char>) {
        let st = stream.clone();
        match stream.next() {
            Some(c) => {
                if c == self.expected {
                    proof {
                        assert(c.deep_view() == c);
                    }
                    Some(c)
                } else {
                    *stream = st;
                    let mut m = String::new();
                    m.append("'");
                    push_char(&mut m, c);
                    m.append("' does not satisfy required conditions.");
                    proof {
                        assert(m@ =~= satisfy_err_text(c));
                    }
                    let pos = stream.pos();
                    logger.with(Msg::Error(MsgBody { msg: m, pos: Some(pos) }));
                    None
                }
            },
            None => {
                let m = "unexpected end of input.".to_owned();
                let pos = stream.pos();
                logger.with(Msg::Error(MsgBody { msg: m, pos: Some(pos) }));
                None
            },
        }
    }
}

/// Consume the one character `expected`.
pub fn char(expected: char) -> (r: CharP)
    ensures
        r == (CharP { expected }),
{
    CharP { expected }
}

/// Recognizer for one character that satisfies a condition.
#[derive(Clone, Copy, Debug)]
pub struct SatisfyP<F: CharCond> {
    pub cond: F,
}

impl<F: CharCond> Parsable for SatisfyP<F> {
    type Result = char;

    /// Consume the next character if the condition holds of it; otherwise
    /// fail, restore the stream, and replace the log with one error message.
    open spec fn spec_parse(&self, s: StreamModel, l: Seq<MsgModel>) -> Outcome<char> {
        if s.rest.len() == 0 {
            Outcome::failed(s, lexer_err(eof_text(), s))
        } else if self.cond.spec_check(s.rest[0]) {
            Outcome::done(s.rest[0], s.advanced(s.rest[0]), l)
        } else {
            Outcome::failed(s, lexer_err(satisfy_err_text(s.rest[0]), s))
        }
    }

    proof fn lemma_parse(&self, s: StreamModel, l: Seq<MsgModel>) {
        if s.rest.len() > 0 && self.cond.spec_check(s.rest[0]) {
            let a = s.advanced(s.rest[0]);
            assert(a.rest =~= s.rest.skip(1));
        } else {
            assert(s.rest.skip(0) =~= s.rest);
        }
    }

    fn parse(&self, stream: &mut CharStream, logger: &mut ParseLogger) -> (r: Option<char>) {
        let st = stream.clone();
        match stream.next() {
            Some(c) => {
                if self.cond.check(&c) {
                    proof {
                        assert(c.deep_view() == c);
                    }
                    Some(c)
                } else {
                    *stream = st;
                    let mut m = String::new();
                    m.append("'");
                    push_char(&mut m, c);
                    m.append("' does not satisfy required conditions.");
                    proof {
                        assert(m@ =~= satisfy_err_text(c));
                    }
                    let pos = stream.pos();
                    logger.with(Msg::Error(MsgBody { msg: m, pos: Some(pos) }));
                    None
                }
            },
            None => {
                let m = "unexpected end of input.".to_owned();
                let pos = stream.pos();
                logger.with(Msg::Error(MsgBody { msg: m, pos: Some(pos) }));
                None
            },
        }
    }
}

/// Consume one character on which the condition holds.
pub fn satisfy<F: CharCond>(cond: F) -> (r: SatisfyP<F>)
    ensures
        r == (SatisfyP { cond }),
{
    SatisfyP { cond }
}

/// Recognizer for a literal string.
#[derive(Clone, Debug, PartialEq, Eq)]
pub struct LiteralP {
    pub expected: String,
}

impl Parsable for LiteralP {
    type Result = String;

    /// Consume the expected characters if the input starts with them;
    /// otherwise fail, restore the stream, and replace the log with one error
    /// message.
    open spec fn spec_parse(&self, s: StreamModel, l: Seq<MsgModel>) -> Outcome<Seq<char>> {
        let e = self.expected@;
        if s.rest.len() >= e.len() && s.rest.take(e.len() as int) == e {
            Outcome::done(e, s.consumed(e.len()), l)
        } else {
            Outcome::failed(s, lexer_err(literal_err_text(e), s))
        }
    }

    proof fn lemma_parse(&self, s: StreamModel, l: Seq<MsgModel>) {
        let e = self.expected@;
        if s.rest.len() >= e.len() && s.rest.take(e.len() as int) == e {
            s.lemma_consumed(e.len());
        } else {
            assert(s.rest.skip(0) =~= s.rest);
        }
    }

    fn parse(&self, stream: &mut CharStream, logger: &mut ParseLogger) -> (r: Option<String>) {
        let ghost s0 = stream@;
        let e = self.expected.as_str();
        let n = e.unicode_len();
        let st = stream.clone();
        let mut i: usize = 0;
        let mut okay = true;
        while okay && i < n
            invariant
                okay ==> ({
                    &&& i <= n
                    &&& n == e@.len()
                    &&& e@ == self.expected@
                    &&& s0.wf()
                    &&& stream@.wf()
                    &&& i <= s0.rest.len()
                    &&& stream@ == s0.consumed(i as nat)
                    &&& s0.rest.take(i as int) == e@.take(i as int)
                }),
                !okay ==> !(s0.rest.len() >= e@.len() && s0.rest.take(e@.len() as int) == e@),
                e@ == self.expected@,
                n == e@.len(),
            decreases n - i, (if okay {
                1int
            } else {
                0int
            }),
        {
            proof {
                s0.lemma_consumed(i as nat);
            }
            match stream.next() {
                Some(c) => {
                    if c == e.get_char(i) {
                        i += 1;
                        proof {
                            assert(stream@ == s0.consumed(i as nat)) by {
                                s0.lemma_consumed((i - 1) as nat);
                                assert(s0.consumed((i - 1) as nat).advanced(c) == s0.consumed(
                                    i as nat,
                                )) by {
                                    lemma_consumed_snoc(s0, (i - 1) as nat);
                                }
                            }
                            assert(s0.rest.take(i as int) =~= e@.take(i as int)) by {
                                assert(s0.rest[i - 1] == c);
                            }
                        }
                    } else {
                        okay = false;
                        proof {
                            assert(s0.rest[i as int] == c);
                            if s0.rest.len() >= e@.len() && s0.rest.take(e@.len() as int) == e@ {
                                assert(s0.rest.take(e@.len() as int)[i as int] == e@[i as int]);
                                assert(false);
                            }
                        }
                    }
                },
                None => {
                    okay = false;
                    proof {
                        assert(s0.rest.len() == i);
                    }
                },
            }
        }
        if okay {
            proof {
                assert(s0.rest.take(n as int) == e@.take(n as int));
                assert(e@.take(n as int) =~= e@);
            }
            let r = self.expected.clone();
            proof {
                assert(r == self.expected);
                assert(r.deep_view() == self.expected@);
            }
            Some(r)
        } else {
            *stream = st;
            let mut m = String::new();
            m.append("expecting \"");
            m.append(e);
            m.append("\".");
            proof {
                assert(m@ =~= literal_err_text(self.expected@));
            }
            let pos = stream.pos();
            logger.with(Msg::Error(MsgBody { msg: m, pos: Some(pos) }));
            None
        }
    }
}

/// Consuming one more character is consuming the first and then the rest:
/// the step lemma behind multi-character consumption.
proof fn lemma_consumed_snoc(s: StreamModel, n: nat)
    requires
        s.wf(),
        n + 1 <= s.rest.len(),
    ensures
        s.consumed(n).advanced(s.rest[n as int]) == s.consumed(n + 1),
    decreases n,
{
    let a = s.advanced(s.rest[0]);
    assert(a.rest =~= s.rest.skip(1));
    if n == 0 {
        assert(s.consumed(1) == a.consumed(0));
        assert(a.consumed(0) == a);
    } else {
        lemma_consumed_snoc(a, (n - 1) as nat);
        assert(a.rest[n - 1] == s.rest[n as int]);
        assert(s.consumed(n) == a.consumed((n - 1) as nat));
        assert(s.consumed(n + 1) == a.consumed(n));
    }
}

/// Consume the given literal string.
pub fn literal(expected: &str) -> (r: LiteralP)
    ensures
        r.expected@ == expected@,
{
    LiteralP { expected: expected.to_owned() }
}

/// The condition that holds of every character: [`satisfy`] with it consumes
/// any one character.
#[derive(Clone, Copy, Debug, PartialEq, Eq)]
pub struct AnyChar;

impl CharCond for AnyChar {
    open spec fn spec_check(&self, c: char) -> bool {
        true
    }

    fn check(&self, c: &char) -> (r: bool) {
        true
    }
}

/// The condition that holds of the ten decimal digits.
#[derive(Clone, Copy, Debug, PartialEq, Eq)]
pub struct AsciiDigit;

impl CharCond for AsciiDigit {
    open spec fn spec_check(&self, c: char) -> bool {
        '0' <= c <= '9'
    }

    fn check(&self, c: &char) -> (r: bool) {
        '0' <= *c && *c <= '9'
    }
}

/// The shape of [`space`]: one of the four whitespace characters, tried in
/// order.
pub type SpaceP = crate::combinators::OrP<
    crate::combinators::OrP<crate::combinators::OrP<CharP, CharP>, CharP>,
    CharP,
>;

/// The value of [`space`]: a blank, a newline, a carriage return or a tab,
/// tried in that order.
pub open spec fn spec_space() -> SpaceP {
    crate::combinators::OrP {
        p1: crate::combinators::OrP {
            p1: crate::combinators::OrP {
                p1: CharP { expected: ' ' },
                p2: CharP { expected: '\n' },
            },
            p2: CharP { expected: '\r' },
        },
        p2: CharP { expected: '\t' },
    }
}

/// Consume a single whitespace character: a blank, a newline, a carriage
/// return or a tab, tried in that order.
pub fn space() -> (r: SpaceP)
    ensures
        r == spec_space(),
{
    crate::combinators::or(
        crate::combinators::or(
            crate::combinators::or(char(' '), char('\n')),
            char('\r'),
        ),
        char('\t'),
    )
}

/// The shape of [`trim`]: a parser between two whitespace runs, projected
/// to its own result.
pub type TrimP<P> = crate::combinators::MapP<
    crate::combinators::And<
        crate::combinators::And<crate::combinators::ManyP<SpaceP>, P>,
        crate::combinators::ManyP<SpaceP>,
    >,
    crate::funcs::Mid3<Vec<char>, <P as Parsable>::Result, Vec<char>>,
>;

/// Consume as much whitespace as possible on both sides of `p`; the result
/// is `p`'s.
pub fn trim<P: Parsable>(p: P) -> (r: TrimP<P>)
    ensures
        r == (crate::combinators::MapP {
            p: crate::combinators::And {
                p1: crate::combinators::And {
                    p1: crate::combinators::ManyP { p: spec_space() },
                    p2: p,
                },
                p2: crate::combinators::ManyP { p: spec_space() },
            },
            f: crate::funcs::Mid3::<Vec<char>, P::Result, Vec<char>> {
                marker: core::marker::PhantomData,
            },
        }),
{
    crate::combinators::mid(
        crate::combinators::many(space()),
        p,
        crate::combinators::many(space()),
    )
}

/// The whitespace helper as a method.
pub trait PrimitiveExt: Parsable {
    /// Consume as much whitespace as possible on both sides of this parser.
    fn trim(self) -> (r: TrimP<Self>)
        ensures
            r == (crate::combinators::MapP {
                p: crate::combinators::And {
                    p1: crate::combinators::And {
                        p1: crate::combinators::ManyP { p: spec_space() },
                        p2: self,
                    },
                    p2: crate::combinators::ManyP { p: spec_space() },
                },
                f: crate::funcs::Mid3::<Vec<char>, Self::Result, Vec<char>> {
                    marker: core::marker::PhantomData,
                },
            }),
    {
        trim(self)
    }
}

impl<P: Parsable> PrimitiveExt for P {

}

} // verus!

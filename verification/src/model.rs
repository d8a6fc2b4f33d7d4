//! The mathematical model that every contract of this crate speaks of: the
//! state of a parse stream, the diagnostic log, and the outcome of one parse
//! attempt.

use crate::logger::Pos;
use vstd::prelude::*;

verus! {

/// The state of a [`crate::primitives::CharStream`], as a mathematical value:
/// the characters not yet consumed, the current position, how many characters
/// were consumed so far, and the total length of the input.
pub ghost struct StreamModel {
    pub rest: Seq<char>,
    pub row: nat,
    pub col: nat,
    pub idx: nat,
    pub len: nat,
}

impl StreamModel {
    /// The stream over `input` from which nothing was consumed yet.
    pub open spec fn fresh(input: Seq<char>) -> StreamModel {
        StreamModel { rest: input, row: 0, col: 0, idx: 0, len: input.len() }
    }

    /// Internal consistency: the consumed and the remaining characters add up
    /// to the whole input, and the row can have grown at most once per
    /// consumed character.
    pub open spec fn wf(self) -> bool {
        &&& self.idx + self.rest.len() == self.len
        &&& self.row <= self.idx
        &&& self.col <= self.idx
    }

    /// The stream after consuming one character `c` (which must be the first
    /// remaining one): the row advances with every character, and a newline
    /// resets the column.
    pub open spec fn advanced(self, c: char) -> StreamModel {
        StreamModel {
            rest: self.rest.drop_first(),
            row: self.row + 1,
            col: if c == '\n' {
                0
            } else {
                self.col
            },
            idx: self.idx + 1,
            len: self.len,
        }
    }

    /// The position of this stream, as the [`Pos`] value that the stream's
    /// `pos` method returns.
    pub open spec fn spec_pos(self) -> Pos {
        Pos { row: self.row as usize, col: self.col as usize }
    }

    /// The stream after consuming the first `n` remaining characters, one at
    /// a time.
    pub open spec fn consumed(self, n: nat) -> StreamModel
        decreases n,
    {
        if n == 0 || self.rest.len() == 0 {
            self
        } else {
            self.advanced(self.rest[0]).consumed((n - 1) as nat)
        }
    }

    /// Consuming `n <= rest.len()` characters advances the stream by exactly
    /// `n`, keeps it well formed, and leaves the rest of the input intact.
    pub proof fn lemma_consumed(self, n: nat)
        requires
            self.wf(),
            n <= self.rest.len(),
        ensures
            ({
                let t = self.consumed(n);
                &&& t.wf()
                &&& t.idx == self.idx + n
                &&& t.len == self.len
                &&& t.rest == self.rest.skip(n as int)
                &&& advances(self, t)
            }),
        decreases n,
    {
        if n == 0 || self.rest.len() == 0 {
            assert(self.rest.skip(0) =~= self.rest);
        } else {
            let a = self.advanced(self.rest[0]);
            assert(a.rest =~= self.rest.skip(1));
            a.lemma_consumed((n - 1) as nat);
            assert(a.rest.skip(n - 1) =~= self.rest.skip(n as int));
        }
    }
}

/// `post` is `pre` after consuming zero or more characters of the same input:
/// what every parse attempt does to a stream, and nothing else.
pub open spec fn advances(pre: StreamModel, post: StreamModel) -> bool {
    &&& post.len == pre.len
    &&& pre.idx <= post.idx
    &&& post.rest == pre.rest.skip(post.idx - pre.idx)
}

/// Consuming nothing is a (degenerate) way of consuming a prefix.
pub proof fn lemma_advances_refl(s: StreamModel)
    ensures
        advances(s, s),
{
    assert(s.rest.skip(0) =~= s.rest);
}

/// Consuming a prefix and then a prefix of what remains consumes a prefix of
/// the original input.
pub proof fn lemma_advances_trans(a: StreamModel, b: StreamModel, c: StreamModel)
    requires
        a.wf(),
        b.wf(),
        c.wf(),
        advances(a, b),
        advances(b, c),
    ensures
        advances(a, c),
{
    assert(b.idx - a.idx <= a.rest.len());
    assert(c.idx - b.idx <= b.rest.len());
    assert(a.rest.skip(b.idx - a.idx).skip(c.idx - b.idx) =~= a.rest.skip(c.idx - a.idx));
}

/// The body of a diagnostic message: its text and, where one was recorded, the
/// position it speaks of.
pub ghost struct MsgBodyModel {
    pub text: Seq<char>,
    pub pos: Option<Pos>,
}

/// A diagnostic message of the log, at one of three severities.
pub ghost enum MsgModel {
    Info(MsgBodyModel),
    Warn(MsgBodyModel),
    Error(MsgBodyModel),
}

/// The position part of a message's rendering: the position in words, or
/// nothing where none was recorded.
pub open spec fn pos_part(p: Option<Pos>) -> Seq<char> {
    match p {
        Some(q) => "(at row: "@ + crate::text::dec_text(q.row as nat) + ", col: "@
            + crate::text::dec_text(q.col as nat) + ")"@,
        None => Seq::empty(),
    }
}

impl MsgModel {
    /// The human-readable rendering of a message: its severity in brackets,
    /// its text, and — where recorded — its position.
    pub open spec fn spec_text(self) -> Seq<char> {
        let level = match self {
            MsgModel::Info(b) => "INFO"@,
            MsgModel::Warn(b) => "WARN"@,
            MsgModel::Error(b) => "ERROR"@,
        };
        let b = match self {
            MsgModel::Info(b) => b,
            MsgModel::Warn(b) => b,
            MsgModel::Error(b) => b,
        };
        "["@ + level + "]: "@ + b.text + " "@ + pos_part(b.pos) + "."@
    }
}

/// What one parse attempt did: its result, the stream it left behind, and the
/// log it left behind. `res` is `None` exactly when the attempt failed.
pub ghost struct Outcome<V> {
    pub res: Option<V>,
    pub stream: StreamModel,
    pub log: Seq<MsgModel>,
}

impl<V> Outcome<V> {
    /// A failed attempt that left stream and log as given.
    pub open spec fn failed(stream: StreamModel, log: Seq<MsgModel>) -> Outcome<V> {
        Outcome { res: None, stream, log }
    }

    /// A successful attempt with result `v` that left stream and log as given.
    pub open spec fn done(v: V, stream: StreamModel, log: Seq<MsgModel>) -> Outcome<V> {
        Outcome { res: Some(v), stream, log }
    }
}

} // verus!

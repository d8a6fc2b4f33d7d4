//! Positions, diagnostic messages, and the log that a parse attempt threads
//! along: an ordered list of messages that is pure telemetry and never drives
//! control flow.

use crate::model::{MsgBodyModel, MsgModel};
use crate::text::push_decimal;
use vstd::prelude::*;
use vstd::string::StringExecFns;

verus! {

/// A parsing position: row and column of the next character to consume.
#[derive(Clone, Copy, Debug, Default, PartialEq, Eq, Structural)]
pub struct Pos {
    pub row: usize,
    pub col: usize,
}

impl Pos {
    /// The row of this position.
    pub open spec fn spec_row(&self) -> usize {
        self.row
    }

    /// The column of this position.
    pub open spec fn spec_col(&self) -> usize {
        self.col
    }

    pub fn new(row: usize, col: usize) -> (r: Self)
        ensures
            r == (Pos { row, col }),
    {
        Pos { row, col }
    }

    /// This position moved by the given row and column offsets.
    pub fn add(&self, d_row: usize, d_col: usize) -> (r: Self)
        requires
            self.row + d_row <= usize::MAX,
            self.col + d_col <= usize::MAX,
        ensures
            r == (Pos { row: (self.row + d_row) as usize, col: (self.col + d_col) as usize }),
    {
        Pos { row: self.row + d_row, col: self.col + d_col }
    }

    #[verifier::when_used_as_spec(spec_row)]
    pub fn row(&self) -> (r: usize)
        ensures
            r == self.row,
    {
        self.row
    }

    #[verifier::when_used_as_spec(spec_col)]
    pub fn col(&self) -> (r: usize)
        ensures
            r == self.col,
    {
        self.col
    }
}

/// The body of a diagnostic message: free text and, optionally, the position
/// it speaks of.
#[derive(Debug, PartialEq, Eq)]
pub struct MsgBody {
    pub msg: String,
    pub pos: Option<Pos>,
}

impl View for MsgBody {
    type V = MsgBodyModel;

    open spec fn view(&self) -> MsgBodyModel {
        MsgBodyModel { text: self.msg@, pos: self.pos }
    }
}

impl Clone for MsgBody {
    fn clone(&self) -> (r: Self)
        ensures
            r == *self,
    {
        MsgBody { msg: self.msg.clone(), pos: self.pos }
    }
}

impl MsgBody {
    pub fn new(msg: &str, pos: Option<Pos>) -> (r: Self)
        ensures
            r@ == (MsgBodyModel { text: msg@, pos }),
    {
        MsgBody { msg: msg.to_owned(), pos }
    }
}

/// A diagnostic message: info, warning or error. A message never aborts a
/// parse; it is read by the caller once the whole parse has finished.
#[derive(Debug, PartialEq, Eq)]
pub enum Msg {
    Info(MsgBody),
    Warn(MsgBody),
    Error(MsgBody),
}

impl View for Msg {
    type V = MsgModel;

    open spec fn view(&self) -> MsgModel {
        match self {
            Msg::Info(b) => MsgModel::Info(b@),
            Msg::Warn(b) => MsgModel::Warn(b@),
            Msg::Error(b) => MsgModel::Error(b@),
        }
    }
}

impl DeepView for Msg {
    type V = MsgModel;

    open spec fn deep_view(&self) -> MsgModel {
        self@
    }
}

impl Msg {
    /// The human-readable form of a message: its severity in brackets, its
    /// text, and — where recorded — its position.
    pub fn to_text(&self) -> (r: String)
        ensures
            r@ == self@.spec_text(),
    {
        let level: &str = match self {
            Msg::Info(b) => "INFO",
            Msg::Warn(b) => "WARN",
            Msg::Error(b) => "ERROR",
        };
        let b = match self {
            Msg::Info(b) => b,
            Msg::Warn(b) => b,
            Msg::Error(b) => b,
        };
        let mut r = String::new();
        r.append("[");
        r.append(level);
        r.append("]: ");
        r.append(b.msg.as_str());
        r.append(" ");
        match b.pos {
            Some(p) => {
                r.append("(at row: ");
                push_decimal(&mut r, p.row);
                r.append(", col: ");
                push_decimal(&mut r, p.col);
                r.append(")");
            },
            None => {},
        }
        r.append(".");
        proof {
            assert(r@ =~= self@.spec_text());
        }
        r
    }
}

impl Clone for Msg {
    fn clone(&self) -> (r: Self)
        ensures
            r == *self,
    {
        match self {
            Msg::Info(b) => Msg::Info(b.clone()),
            Msg::Warn(b) => Msg::Warn(b.clone()),
            Msg::Error(b) => Msg::Error(b.clone()),
        }
    }
}

/// The diagnostic log: an ordered list of messages. `add` appends, `with`
/// replaces the whole log with a single message, so that the most specific
/// failure, not the first, surfaces.
#[derive(Debug, PartialEq, Eq)]
pub struct ParseLogger {
    pub stack: Vec<Msg>,
}

impl View for ParseLogger {
    type V = Seq<MsgModel>;

    open spec fn view(&self) -> Seq<MsgModel> {
        self.stack.deep_view()
    }
}

impl Clone for ParseLogger {
    fn clone(&self) -> (r: Self)
        ensures
            r@ == self@,
    {
        let stack = self.stack.clone();
        proof {
            assert(stack.deep_view() =~= self.stack.deep_view()) by {
                assert(forall|i: int|
                    0 <= i < self.stack.len() ==> stack[i] == #[trigger] self.stack[i]);
            }
        }
        ParseLogger { stack }
    }
}

impl Default for ParseLogger {
    /// An empty log.
    fn default() -> (r: Self)
        ensures
            r@ == Seq::<MsgModel>::empty(),
    {
        let r = ParseLogger { stack: Vec::new() };
        proof {
            assert(r@ =~= Seq::<MsgModel>::empty());
        }
        r
    }
}

impl ParseLogger {
    /// Append a message to the log.
    pub fn add(&mut self, msg: Msg)
        ensures
            final(self)@ == old(self)@.push(msg@),
    {
        self.stack.push(msg);
        proof {
            assert(self.stack.deep_view() =~= old(self).stack.deep_view().push(msg@));
        }
    }

    /// Discard every message.
    pub fn clear(&mut self)
        ensures
            final(self)@ == Seq::<MsgModel>::empty(),
    {
        self.stack.clear();
        proof {
            assert(self@ =~= Seq::<MsgModel>::empty());
        }
    }

    /// Replace the whole log with the one given message.
    pub fn with(&mut self, msg: Msg)
        ensures
            final(self)@ == seq![msg@],
    {
        self.clear();
        self.add(msg);
        proof {
            assert(self@ =~= seq![msg@]);
        }
    }

    /// How many messages the log holds.
    pub fn len(&self) -> (r: usize)
        ensures
            r == self@.len(),
    {
        self.stack.len()
    }

    /// Whether the log holds no message.
    pub fn is_empty(&self) -> (r: bool)
        ensures
            r == (self@.len() == 0),
    {
        self.stack.is_empty()
    }
}

} // verus!

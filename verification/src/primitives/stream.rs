//! The character stream that every parser of this crate consumes: a cursor
//! over the input with a position, supporting cheap snapshot and restore so
//! that combinators can roll back a failed attempt.

use crate::logger::Pos;
use crate::model::StreamModel;
use crate::text::push_char;
use vstd::prelude::*;
use vstd::string::StrSliceExecFns;

verus! {

/// A parse stream over characters. Snapshot by `clone`, restore by
/// assignment; both leave the model of the stream intact, which is what the
/// rollback contracts of the combinators are stated over.
#[derive(Debug)]
pub struct CharStream {
    chars: Vec<char>,
    idx: usize,
    row: usize,
    col: usize,
}

impl View for CharStream {
    type V = StreamModel;

    closed spec fn view(&self) -> StreamModel {
        StreamModel {
            rest: self.chars@.skip(self.idx as int),
            row: self.row as nat,
            col: self.col as nat,
            idx: self.idx as nat,
            len: self.chars@.len(),
        }
    }
}

impl DeepView for CharStream {
    type V = StreamModel;

    open spec fn deep_view(&self) -> StreamModel {
        self.view()
    }
}

impl Clone for CharStream {
    /// A snapshot: a stream with the very same model.
    fn clone(&self) -> (r: Self)
        ensures
            r@ == self@,
    {
        let chars = self.chars.clone();
        proof {
            assert(chars@ =~= self.chars@) by {
                assert(forall|i: int|
                    0 <= i < self.chars.len() ==> chars[i] == #[trigger] self.chars[i]);
            }
        }
        CharStream { chars, idx: self.idx, row: self.row, col: self.col }
    }
}

impl CharStream {
    /// A fresh stream over the characters of `inp`, positioned at its start.
    pub fn new(inp: &str) -> (r: Self)
        ensures
            r@ == StreamModel::fresh(inp@),
            r@.wf(),
    {
        let n = inp.unicode_len();
        let mut chars: Vec<char> = Vec::new();
        let mut i: usize = 0;
        while i < n
            invariant
                i <= n,
                n == inp@.len(),
                chars@ == inp@.take(i as int),
            decreases n - i,
        {
            chars.push(inp.get_char(i));
            i += 1;
            proof {
                assert(chars@ =~= inp@.take(i as int));
            }
        }
        proof {
            assert(chars@ =~= inp@);
        }
        let r = CharStream { chars, idx: 0, row: 0, col: 0 };
        proof {
            assert(r@.rest =~= inp@);
        }
        r
    }

    /// The characters not yet consumed, as a fresh `String`.
    pub fn as_str(&self) -> (r: String)
        requires
            self@.wf(),
        ensures
            r@ == self@.rest,
    {
        let mut r = String::new();
        let mut i: usize = self.idx;
        while i < self.chars.len()
            invariant
                self.idx <= i <= self.chars.len(),
                r@ == self.chars@.subrange(self.idx as int, i as int),
            decreases self.chars.len() - i,
        {
            push_char(&mut r, self.chars[i]);
            i += 1;
            proof {
                assert(r@ =~= self.chars@.subrange(self.idx as int, i as int));
            }
        }
        proof {
            assert(r@ =~= self@.rest);
        }
        r
    }

    /// The current position.
    pub fn pos(&self) -> (r: Pos)
        ensures
            r.row == self@.row,
            r.col == self@.col,
    {
        Pos::new(self.row, self.col)
    }

    /// How many characters were consumed so far.
    pub fn index(&self) -> (r: usize)
        ensures
            r == self@.idx,
    {
        self.idx
    }

    /// The length of the whole input, in characters.
    pub fn len(&self) -> (r: usize)
        ensures
            r == self@.len,
    {
        self.chars.len()
    }

    /// Whether the whole input is empty.
    pub fn is_empty(&self) -> (r: bool)
        ensures
            r == (self@.len == 0),
    {
        self.chars.len() == 0
    }

    /// Consume and return the next character, advancing the position: the row
    /// grows with every character, and a newline resets the column. At the end
    /// of the input, return `None` and change nothing.
    pub fn next(&mut self) -> (r: Option<char>)
        requires
            old(self)@.wf(),
        ensures
            final(self)@.wf(),
            match r {
                Some(c) => old(self)@.rest.len() > 0 && c == old(self)@.rest[0] && final(self)@
                    == old(self)@.advanced(c),
                None => old(self)@.rest.len() == 0 && *final(self) == *old(self),
            },
    {
        if self.idx < self.chars.len() {
            let c = self.chars[self.idx];
            self.idx += 1;
            self.row += 1;
            if c == '\n' {
                self.col = 0;
            }
            proof {
                assert(self@.rest =~= old(self)@.rest.drop_first());
            }
            Some(c)
        } else {
            proof {
                assert(self@.rest.len() == 0);
            }
            None
        }
    }
}

/// What any parse stream offers its combinators: a position and the few size
/// observations, each tied to the stream's model.
pub trait ParseStream: View<V = StreamModel> {
    /// The current position.
    fn pos(&self) -> (r: Pos)
        ensures
            r.row == self@.row,
            r.col == self@.col,
    ;

    /// How many tokens were consumed so far.
    fn index(&self) -> (r: usize)
        ensures
            r == self@.idx,
    ;

    /// The length of the whole input, in tokens.
    fn len(&self) -> (r: usize)
        ensures
            r == self@.len,
    ;

    /// Whether the whole input is empty.
    fn is_empty(&self) -> (r: bool)
        ensures
            r == (self@.len == 0),
    ;
}

impl ParseStream for CharStream {
    fn pos(&self) -> (r: Pos) {
        CharStream::pos(self)
    }

    fn index(&self) -> (r: usize) {
        CharStream::index(self)
    }

    fn len(&self) -> (r: usize) {
        CharStream::len(self)
    }

    fn is_empty(&self) -> (r: bool) {
        CharStream::is_empty(self)
    }
}

} // verus!

//! The `bind` combinator in its own right: context-sensitive choice of the
//! next parser, and the monad laws on single-digit inputs.

use parsic::combinators::{pure, BindAfter, MonadExt, PureBind};
use parsic::funcs::BindFn;
use parsic::parsable::Parsable;
use parsic::primitives::{char, satisfy, AnyChar, CharP, CharStream};
use std::marker::PhantomData;
use parsic::model::{MsgModel, Outcome, StreamModel};
use vstd::prelude::{DeepView, Seq};

/// A sign chosen by the case of the preceding letter.
#[derive(Clone, Copy, Debug)]
struct UpperSign;

impl BindFn for UpperSign {
    type In = char;

    type P = CharP;

    // Specification members: never called at run time.
    fn spec_step(&self, _x: <Self::In as DeepView>::V, _s: StreamModel, _l: Seq<MsgModel>) -> Outcome<<<Self::P as Parsable>::Result as DeepView>::V> {
        panic!()
    }

    fn lemma_step(&self, _x: <Self::In as DeepView>::V, _s: StreamModel, _l: Seq<MsgModel>) {
    }

    fn step(&self, x: char) -> CharP {
        if x.is_uppercase() {
            char('+')
        } else {
            char('-')
        }
    }
}

/// A digit chosen by a boolean.
#[derive(Clone, Copy, Debug)]
struct BoolDigit;

impl BindFn for BoolDigit {
    type In = bool;

    type P = CharP;

    // Specification members: never called at run time.
    fn spec_step(&self, _x: <Self::In as DeepView>::V, _s: StreamModel, _l: Seq<MsgModel>) -> Outcome<<<Self::P as Parsable>::Result as DeepView>::V> {
        panic!()
    }

    fn lemma_step(&self, _x: <Self::In as DeepView>::V, _s: StreamModel, _l: Seq<MsgModel>) {
    }

    fn step(&self, x: bool) -> CharP {
        if x {
            char('1')
        } else {
            char('0')
        }
    }
}

/// One expected character if the input is the tested one, another otherwise.
#[derive(Clone, Copy, Debug)]
struct CharSel {
    test: char,
    then: char,
    other: char,
}

impl BindFn for CharSel {
    type In = char;

    type P = CharP;

    // Specification members: never called at run time.
    fn spec_step(&self, _x: <Self::In as DeepView>::V, _s: StreamModel, _l: Seq<MsgModel>) -> Outcome<<<Self::P as Parsable>::Result as DeepView>::V> {
        panic!()
    }

    fn lemma_step(&self, _x: <Self::In as DeepView>::V, _s: StreamModel, _l: Seq<MsgModel>) {
    }

    fn step(&self, x: char) -> CharP {
        if x == self.test {
            char(self.then)
        } else {
            char(self.other)
        }
    }
}

#[test]
fn bind_ok() {
    let parser = satisfy(AnyChar).bind(UpperSign);

    let mut st1 = CharStream::new("A+");
    let mut st2 = CharStream::new("a-");

    let (res1, logs1) = parser.exec(&mut st1);
    let (res2, logs2) = parser.exec(&mut st2);

    assert_eq!((Some('+'), Some('-')), (res1, res2));
    assert_eq!(("", ""), (st1.as_str().as_str(), st2.as_str().as_str()));
    assert_eq!((0, 0), (logs1.len(), logs2.len()));
}

#[test]
fn bind_left_identity() {
    // `pure(x).bind(f) ~ f(x)`
    let parser1 = pure(true).bind(BoolDigit);
    let parser2 = BoolDigit.step(true);

    assert_eq!(
        parser1.exec(&mut CharStream::new("0")),
        parser2.exec(&mut CharStream::new("0"))
    );
    assert_eq!(
        parser1.exec(&mut CharStream::new("1")),
        parser2.exec(&mut CharStream::new("1"))
    );
}

#[test]
fn bind_right_identity() {
    // `p.bind(|x| pure(x)) ~ p`
    let parser1 = char('0').bind(PureBind::<char> { marker: PhantomData });
    let parser2 = char('0');

    assert_eq!(
        parser1.exec(&mut CharStream::new("0")),
        parser2.exec(&mut CharStream::new("0"))
    );
    assert_eq!(
        parser1.exec(&mut CharStream::new("1")),
        parser2.exec(&mut CharStream::new("1"))
    );
}

#[test]
fn associativity() {
    // `p.bind(f).bind(g) ~ p.bind(|x| f(x).bind(g))`
    let f = CharSel { test: '0', then: 'a', other: 'b' };
    let g = CharSel { test: 'a', then: 'A', other: 'B' };
    let parser1 = char('0').bind(g).bind(f);
    let parser2 = char('0').bind(BindAfter { f: g, g: f });

    assert_eq!(
        parser1.exec(&mut CharStream::new("0")),
        parser2.exec(&mut CharStream::new("0"))
    );
    assert_eq!(
        parser1.exec(&mut CharStream::new("1")),
        parser2.exec(&mut CharStream::new("1"))
    );
}

//! Sequencing: the pair of results on success, and the full rollback to
//! before the first parser on any failure.

use parsic::combinators::{and, MapExt, SequentialExt};
use parsic::funcs::MapOptFn;
use vstd::prelude::DeepView;
use parsic::parsable::Parsable;
use parsic::primitives::{char, satisfy, AsciiDigit, CharStream};

/// The decimal value of a digit, as the standard library computes it.
#[derive(Clone, Copy, Debug)]
struct ToDigit;

impl DeepView for ToDigit {
    type V = ToDigit;

    fn deep_view(&self) -> ToDigit {
        *self
    }
}

impl MapOptFn for ToDigit {
    type In = char;

    type Out = u32;

    // Specification member: never called at run time.
    fn spec_apply(&self, _x: <Self::In as DeepView>::V) -> Option<<Self::Out as DeepView>::V> {
        panic!()
    }

    fn apply(&self, x: char) -> Option<u32> {
        x.to_digit(10)
    }
}

#[test]
fn and_ok() {
    let parser = and(char('A'), char('B'));

    let mut st = CharStream::new("ABC");
    let (res, logs) = parser.exec(&mut st);

    assert_eq!(Some(('A', 'B')), res);
    assert_eq!("C", st.as_str());
    assert_eq!(0, logs.len());
}

#[test]
fn different_type_ok() {
    let parser = satisfy(AsciiDigit).map_option(ToDigit).and(char('A'));

    let mut st = CharStream::new("1A+");
    let (res, logs) = parser.exec(&mut st);

    assert_eq!(Some((1, 'A')), res);
    assert_eq!("+", st.as_str());
    assert_eq!(0, logs.len());
}

#[test]
fn sequential_left_fail() {
    let parser = char('A').and(char('B'));

    let mut st = CharStream::new("BBC");
    let (res, logs) = parser.exec(&mut st);

    assert_eq!(None, res);
    assert_eq!("BBC", st.as_str());
    assert_eq!(1, logs.len());
}

#[test]
fn sequential_right_fail() {
    let parser = char('A').and(char('B'));

    let mut st = CharStream::new("ACC");
    let (res, logs) = parser.exec(&mut st);

    assert_eq!(None, res);
    assert_eq!("ACC", st.as_str());
    assert_eq!(1, logs.len());
}

#[test]
fn sequential_both_fail() {
    let parser = char('A').and(char('B'));

    let mut st = CharStream::new("CCC");
    let (res, logs) = parser.exec(&mut st);

    assert_eq!(None, res);
    assert_eq!("CCC", st.as_str());
    assert_eq!(1, logs.len());
}

//! Ordered choice: which branch wins, and what failure leaves behind.

use parsic::combinators::AlternativeExt;
use parsic::parsable::Parsable;
use parsic::primitives::{char, CharStream};

#[test]
fn left_ok() {
    let parser = char('A').or(char('B'));

    let mut st = CharStream::new("Ahhh");
    let (res, logs) = parser.exec(&mut st);

    assert_eq!(Some('A'), res);
    assert_eq!("hhh", st.as_str());
    assert_eq!(0, logs.len());
}

#[test]
fn right_ok() {
    let parser = char('B').or(char('A'));

    let mut st = CharStream::new("Ahhh");
    let (res, logs) = parser.exec(&mut st);

    assert_eq!(Some('A'), res);
    assert_eq!("hhh", st.as_str());
    assert_eq!(0, logs.len());
}

#[test]
fn both_ok() {
    let parser = char('A').or(char('A'));

    let mut st = CharStream::new("Ahhh");
    let (res, logs) = parser.exec(&mut st);

    assert_eq!(Some('A'), res);
    assert_eq!("hhh", st.as_str());
    assert_eq!(0, logs.len());
}

#[test]
fn or_both_fail() {
    let parser = char('B').or(char('C'));

    let mut st = CharStream::new("Ahhh");
    let (res, logs) = parser.exec(&mut st);

    assert_eq!(None, res);
    assert_eq!("Ahhh", st.as_str());
    assert_eq!(1, logs.len());
}

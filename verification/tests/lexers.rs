//! The primitive recognizers: consuming single characters, conditioned
//! characters and literal strings, and their failure behaviour.

use parsic::combinators::empty;
use parsic::parsable::Parsable;
use parsic::primitives::{char, literal, satisfy, CharCond, CharStream};

/// A character that is uppercase, as the standard library judges it.
#[derive(Clone, Copy, Debug)]
struct Upper;

impl CharCond for Upper {
    // Specification member: never called at run time.
    fn spec_check(&self, _c: char) -> bool {
        panic!()
    }

    fn check(&self, c: &char) -> bool {
        c.is_uppercase()
    }
}

#[test]
fn char_ok() {
    let parser = char('H');

    let mut st = CharStream::new("Hello");
    let (res, logs) = parser.exec(&mut st);

    assert_eq!(Some('H'), res);
    assert_eq!("ello", st.as_str());
    assert_eq!(0, logs.len());
}

#[test]
fn satisty_ok() {
    let mut st = CharStream::new("Hello");
    let (res, logs) = satisfy(Upper).exec(&mut st);

    assert_eq!(Some('H'), res);
    assert_eq!("ello", st.as_str());
    assert_eq!(0, logs.len());
}

#[test]
fn literal_ok() {
    let parser = literal("Hello");

    let mut st = CharStream::new("Hello!");
    let (res, logs) = parser.exec(&mut st);

    assert_eq!(Some("Hello".to_string()), res);
    assert_eq!("!", st.as_str());
    assert_eq!(0, logs.len());
}

#[test]
fn literal_fail() {
    let parser = literal("Hello");

    let mut st = CharStream::new("Hell");
    let (res, logs) = parser.exec(&mut st);

    assert_eq!(None, res);
    assert_eq!("Hell", st.as_str());
    assert_eq!(1, logs.len());
}

#[test]
fn lexers_ok() {
    let parser = char('H');

    let mut st = CharStream::new("Hello");
    let (res, logs) = parser.exec(&mut st);

    assert_eq!(Some('H'), res);
    assert_eq!("ello", st.as_str());
    assert_eq!(0, logs.len());
}

#[test]
fn lexers_fail() {
    let parser = literal("Hello");

    let mut st = CharStream::new("Hell");
    let (res, logs) = parser.exec(&mut st);

    assert_eq!(None, res);
    assert_eq!("Hell", st.as_str());
    assert_eq!(1, logs.len());
}

#[test]
fn mod_ok() {
    let mut st = CharStream::new("Hello");
    let (res, logs) = char('H').exec(&mut st);

    assert_eq!(Some('H'), res);
    assert_eq!("ello", st.as_str());
    assert_eq!(0, logs.len());
}

#[test]
fn mod_fail() {
    let mut st = CharStream::new("Hell");
    let (res, logs) = literal("Hello").exec(&mut st);

    assert_eq!(None, res);
    assert_eq!("Hell", st.as_str());
    assert_eq!(1, logs.len());
}

#[test]
fn combinators_fail_with_grace() {
    let parser = satisfy(Upper);

    let mut st = CharStream::new("hello");
    let (res, logs) = parser.exec(&mut st);

    assert_eq!(None, res);
    assert_eq!("hello", st.as_str());
    assert_eq!(1, logs.len());
}

#[test]
fn ok() {
    let mut st = CharStream::new("Hello");
    let (res, logs) = satisfy(Upper).exec(&mut st);

    assert_eq!(Some('H'), res);
    assert_eq!("ello", st.as_str());
    assert_eq!(0, logs.len());
}

#[test]
fn fail() {
    let mut st = CharStream::new("Hell");
    let (res, logs) = literal("Hello").exec(&mut st);

    assert_eq!(None, res);
    assert_eq!("Hell", st.as_str());
    assert_eq!(1, logs.len());
}

#[test]
fn empty_fail() {
    let mut st = CharStream::new("Hello");
    let (res, logs) = empty::<String>().exec(&mut st);

    assert_eq!(None as Option<String>, res);
    assert_eq!("Hello", st.as_str());
    assert_eq!(0, logs.len());
}

//! Choice: failure with grace, the monoid laws of `or` with `empty`, and
//! the laws that tie `empty` and `or` to `pure` and `compose`.

use parsic::combinators::{empty, pure, AlternativeExt, ApplicativeExt};
use parsic::funcs::{DupVal, MapFn};
use parsic::parsable::Parsable;
use parsic::primitives::{char, CharStream};
use vstd::prelude::DeepView;

/// The affine function `x * m + a` on unsigned integers.
#[derive(Clone, Copy, Debug, PartialEq)]
struct LinFn {
    m: u64,
    a: u64,
}

impl DeepView for LinFn {
    type V = LinFn;

    fn deep_view(&self) -> LinFn {
        *self
    }
}

impl DupVal for LinFn {
    fn dup(&self) -> Self {
        *self
    }
}

impl MapFn for LinFn {
    type In = u64;

    type Out = u64;

    // Specification members: never called at run time.
    fn spec_apply(&self, _x: <Self::In as DeepView>::V) -> <Self::Out as DeepView>::V {
        panic!()
    }

    fn lemma_self_view(&self) {
    }

    fn apply(&self, x: u64) -> u64 {
        x * self.m + self.a
    }
}

#[test]
fn alternative_fail_with_grace() {
    let parser = char('B').or(char('C'));

    let mut st = CharStream::new("Ahhh");
    let (res, logs) = parser.exec(&mut st);

    assert_eq!(None, res);
    assert_eq!("Ahhh", st.as_str());
    assert_eq!(1, logs.len());
}

#[test]
fn monoid_left_identity() {
    // `empty().or(p) ~ p`
    let parser1 = empty::<char>().or(char('0'));
    let parser2 = char('0');

    assert_eq!(
        parser1.exec(&mut CharStream::new("01")),
        parser2.exec(&mut CharStream::new("01"))
    );
    assert_eq!(
        parser1.exec(&mut CharStream::new("10")),
        parser2.exec(&mut CharStream::new("10"))
    );
}

#[test]
fn monoid_right_identity() {
    // `p.or(empty()) ~ p`
    let parser1 = char('0').or(empty::<char>());
    let parser2 = char('0');

    assert_eq!(
        parser1.exec(&mut CharStream::new("01")),
        parser2.exec(&mut CharStream::new("01"))
    );
    // Logs are meant to be different
    assert_eq!(
        parser1.exec(&mut CharStream::new("10")).0,
        parser2.exec(&mut CharStream::new("10")).0
    );
}

#[test]
fn monoid_associative() {
    // `px.or(py).or(pz) ~ px.or(py.or(pz))`
    let parser1 = char('0').or(char('1')).or(char('2'));
    let parser2 = char('0').or(char('1').or(char('2')));

    assert_eq!(
        parser1.exec(&mut CharStream::new("01")),
        parser2.exec(&mut CharStream::new("01"))
    );
    assert_eq!(
        parser1.exec(&mut CharStream::new("10")),
        parser2.exec(&mut CharStream::new("10"))
    );
    assert_eq!(
        parser1.exec(&mut CharStream::new("22")),
        parser2.exec(&mut CharStream::new("22"))
    );
}

#[test]
fn left_zero() {
    // `empty().compose(x) ~ empty()`
    let parser1 = empty::<LinFn>().compose(pure(1u64));
    let parser2 = empty::<u64>();

    assert_eq!(
        parser1.exec(&mut CharStream::new("")),
        parser2.exec(&mut CharStream::new(""))
    );
}

#[test]
fn right_zero() {
    // `pf.compose(empty()) ~ empty()`
    let parser1 = pure(LinFn { m: 1, a: 1 }).compose(empty::<u64>());
    let parser2 = empty::<u64>();

    assert_eq!(
        parser1.exec(&mut CharStream::new("")),
        parser2.exec(&mut CharStream::new(""))
    );
}

#[test]
fn left_distribution() {
    // `pf.or(pg).compose(px) ~ pf.compose(px).or(pg.compose(px))`
    let pf = pure(LinFn { m: 1, a: 3 });
    let pg = pure(LinFn { m: 5, a: 0 });
    let px = pure(2u64);
    let parser1 = pf.clone().or(pg.clone()).compose(px.clone());
    let parser2 = pf.compose(px.clone()).or(pg.compose(px));

    assert_eq!(
        parser1.exec(&mut CharStream::new("")),
        parser2.exec(&mut CharStream::new(""))
    );
}

#[test]
fn right_distribution() {
    // `pf.compose(px.or(py)) ~ pf.compose(px).or(pf.compose(py))`
    let pf = pure(LinFn { m: 1, a: 3 });
    let (px, py) = (pure(5u64), pure(7u64));
    let parser1 = pf.clone().compose(px.clone().or(py.clone()));
    let parser2 = pf.clone().compose(px).or(pf.compose(py));

    assert_eq!(
        parser1.exec(&mut CharStream::new("")),
        parser2.exec(&mut CharStream::new(""))
    );
}

#[test]
fn left_catch() {
    // `pure(a).or(x) ~ pure(a)`
    let parser1 = pure('0').or(char('1'));
    let parser2 = pure('0');

    assert_eq!(
        parser1.exec(&mut CharStream::new("1")),
        parser2.exec(&mut CharStream::new("1"))
    );
}

//! The `compose` combinator on its own: failure with grace and the
//! applicative laws in their method spelling.

use parsic::combinators::{pure, ApplicativeExt};
use parsic::funcs::{DupVal, MapFn};
use parsic::parsable::Parsable;
use parsic::primitives::{char, CharStream};
use vstd::prelude::DeepView;

/// Whether a character is the letter aitch.
#[derive(Clone, Copy, Debug, PartialEq)]
struct IsAitch;

impl DeepView for IsAitch {
    type V = IsAitch;

    fn deep_view(&self) -> IsAitch {
        *self
    }
}

impl DupVal for IsAitch {
    fn dup(&self) -> Self {
        *self
    }
}

impl MapFn for IsAitch {
    type In = char;

    type Out = bool;

    // Specification members: never called at run time.
    fn spec_apply(&self, _x: <Self::In as DeepView>::V) -> <Self::Out as DeepView>::V {
        panic!()
    }

    fn lemma_self_view(&self) {
    }

    fn apply(&self, x: char) -> bool {
        x == 'H'
    }
}

/// The identity on characters.
#[derive(Clone, Copy, Debug, PartialEq)]
struct IdChar;

impl DeepView for IdChar {
    type V = IdChar;

    fn deep_view(&self) -> IdChar {
        *self
    }
}

impl DupVal for IdChar {
    fn dup(&self) -> Self {
        *self
    }
}

impl MapFn for IdChar {
    type In = char;

    type Out = char;

    // Specification members: never called at run time.
    fn spec_apply(&self, _x: <Self::In as DeepView>::V) -> <Self::Out as DeepView>::V {
        panic!()
    }

    fn lemma_self_view(&self) {
    }

    fn apply(&self, x: char) -> char {
        x
    }
}

/// One character if the input is the tested one, another otherwise.
#[derive(Clone, Copy, Debug, PartialEq)]
struct MapIf {
    test: char,
    then: char,
    other: char,
}

impl DeepView for MapIf {
    type V = MapIf;

    fn deep_view(&self) -> MapIf {
        *self
    }
}

impl DupVal for MapIf {
    fn dup(&self) -> Self {
        *self
    }
}

impl MapFn for MapIf {
    type In = char;

    type Out = char;

    // Specification members: never called at run time.
    fn spec_apply(&self, _x: <Self::In as DeepView>::V) -> <Self::Out as DeepView>::V {
        panic!()
    }

    fn lemma_self_view(&self) {
    }

    fn apply(&self, x: char) -> char {
        if x == self.test {
            self.then
        } else {
            self.other
        }
    }
}

/// The composition `f` after `g` of two [`MapIf`] tables.
#[derive(Clone, Copy, Debug, PartialEq)]
struct FAfterG {
    f: MapIf,
    g: MapIf,
}

impl DeepView for FAfterG {
    type V = FAfterG;

    fn deep_view(&self) -> FAfterG {
        *self
    }
}

impl DupVal for FAfterG {
    fn dup(&self) -> Self {
        *self
    }
}

impl MapFn for FAfterG {
    type In = char;

    type Out = char;

    // Specification members: never called at run time.
    fn spec_apply(&self, _x: <Self::In as DeepView>::V) -> <Self::Out as DeepView>::V {
        panic!()
    }

    fn lemma_self_view(&self) {
    }

    fn apply(&self, x: char) -> char {
        self.f.apply(self.g.apply(x))
    }
}

/// The affine function `x * m + a` on unsigned integers.
#[derive(Clone, Copy, Debug, PartialEq)]
struct LinFn {
    m: u64,
    a: u64,
}

impl DeepView for LinFn {
    type V = LinFn;

    fn deep_view(&self) -> LinFn {
        *self
    }
}

impl DupVal for LinFn {
    fn dup(&self) -> Self {
        *self
    }
}

impl MapFn for LinFn {
    type In = u64;

    type Out = u64;

    // Specification members: never called at run time.
    fn spec_apply(&self, _x: <Self::In as DeepView>::V) -> <Self::Out as DeepView>::V {
        panic!()
    }

    fn lemma_self_view(&self) {
    }

    fn apply(&self, x: u64) -> u64 {
        x * self.m + self.a
    }
}

/// Application at a fixed argument.
#[derive(Clone, Copy, Debug, PartialEq)]
struct ApplyAt {
    x: u64,
}

impl DeepView for ApplyAt {
    type V = ApplyAt;

    fn deep_view(&self) -> ApplyAt {
        *self
    }
}

impl DupVal for ApplyAt {
    fn dup(&self) -> Self {
        *self
    }
}

impl MapFn for ApplyAt {
    type In = LinFn;

    type Out = u64;

    // Specification members: never called at run time.
    fn spec_apply(&self, _x: <Self::In as DeepView>::V) -> <Self::Out as DeepView>::V {
        panic!()
    }

    fn lemma_self_view(&self) {
    }

    fn apply(&self, f: LinFn) -> u64 {
        f.apply(self.x)
    }
}

/// The curried composer over affine functions.
#[derive(Clone, Copy, Debug, PartialEq)]
struct Composer;

/// The composer with its first argument fixed.
#[derive(Clone, Copy, Debug, PartialEq)]
struct ComposerWith {
    f: LinFn,
}

/// Two affine functions, composed: `f` after `g`.
#[derive(Clone, Copy, Debug, PartialEq)]
struct Composed {
    f: LinFn,
    g: LinFn,
}

impl DeepView for Composer {
    type V = Composer;

    fn deep_view(&self) -> Composer {
        *self
    }
}

impl DupVal for Composer {
    fn dup(&self) -> Self {
        *self
    }
}

impl MapFn for Composer {
    type In = LinFn;

    type Out = ComposerWith;

    // Specification members: never called at run time.
    fn spec_apply(&self, _x: <Self::In as DeepView>::V) -> <Self::Out as DeepView>::V {
        panic!()
    }

    fn lemma_self_view(&self) {
    }

    fn apply(&self, f: LinFn) -> ComposerWith {
        ComposerWith { f }
    }
}

impl DeepView for ComposerWith {
    type V = ComposerWith;

    fn deep_view(&self) -> ComposerWith {
        *self
    }
}

impl DupVal for ComposerWith {
    fn dup(&self) -> Self {
        *self
    }
}

impl MapFn for ComposerWith {
    type In = LinFn;

    type Out = Composed;

    // Specification members: never called at run time.
    fn spec_apply(&self, _x: <Self::In as DeepView>::V) -> <Self::Out as DeepView>::V {
        panic!()
    }

    fn lemma_self_view(&self) {
    }

    fn apply(&self, g: LinFn) -> Composed {
        Composed { f: self.f, g }
    }
}

impl DeepView for Composed {
    type V = Composed;

    fn deep_view(&self) -> Composed {
        *self
    }
}

impl DupVal for Composed {
    fn dup(&self) -> Self {
        *self
    }
}

impl MapFn for Composed {
    type In = u64;

    type Out = u64;

    // Specification members: never called at run time.
    fn spec_apply(&self, _x: <Self::In as DeepView>::V) -> <Self::Out as DeepView>::V {
        panic!()
    }

    fn lemma_self_view(&self) {
    }

    fn apply(&self, x: u64) -> u64 {
        self.f.apply(self.g.apply(x))
    }
}

#[test]
fn compose_fail_with_grace() {
    let parser = pure(IsAitch).compose(char('h'));

    let mut st = CharStream::new("Hello");
    let (res, logs) = parser.exec(&mut st);

    assert_eq!(None, res);
    assert_eq!("Hello", st.as_str());
    assert_eq!(1, logs.len());
}

#[test]
fn compose_identity() {
    // `pure(id).compose(p) ~ p`
    let parser1 = pure(IdChar).compose(char('0'));
    let parser2 = char('0');

    assert_eq!(
        parser1.exec(&mut CharStream::new("01")),
        parser2.exec(&mut CharStream::new("01"))
    );
    assert_eq!(
        parser1.exec(&mut CharStream::new("10")),
        parser2.exec(&mut CharStream::new("10"))
    );
}

#[test]
fn compose_homomorphism() {
    // `pure(f).compose(pure(g)) ~ pure(|x| f(g(x)))`
    let f = MapIf { test: '0', then: 'a', other: 'b' };
    let g = MapIf { test: 'a', then: 'A', other: 'B' };
    let parser1 = pure(f).compose(pure(g).compose(char('0')));
    let parser2 = pure(FAfterG { f, g }).compose(char('0'));

    assert_eq!(
        parser1.exec(&mut CharStream::new("01")),
        parser2.exec(&mut CharStream::new("01"))
    );
    assert_eq!(
        parser1.exec(&mut CharStream::new("10")),
        parser2.exec(&mut CharStream::new("10"))
    );
}

#[test]
fn compose_interchange() {
    // `x.compose(pure(y)) ~ pure(|g| g(y)).compose(x)`
    let x = pure(LinFn { m: 1, a: 1 });
    let parser1 = x.clone().compose(pure(1u64));
    let parser2 = pure(ApplyAt { x: 1 }).compose(x);

    assert_eq!(
        parser1.exec(&mut CharStream::new("")),
        parser2.exec(&mut CharStream::new(""))
    );
}

#[test]
fn compose_composition() {
    // `x.compose(y.compose(z)) ~ pure(compose).compose(x).compose(y).compose(z)`
    let x = pure(LinFn { m: 1, a: 3 });
    let y = pure(LinFn { m: 5, a: 0 });
    let z = pure(2u64);
    let parser1 = x.clone().compose(y.clone().compose(z.clone()));
    let parser2 = pure(Composer).compose(x).compose(y).compose(z);

    assert_eq!(
        parser1.exec(&mut CharStream::new("")),
        parser2.exec(&mut CharStream::new(""))
    );
}

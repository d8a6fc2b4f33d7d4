//! Function values with specifications. The combinators that transform or
//! chain parser results take these instead of bare closures: each carries a
//! spec-level description of what it computes, so that the combinator's own
//! contract can say exactly what comes out.

use crate::model::{MsgModel, Outcome, StreamModel};
use crate::parsable::Parsable;
use vstd::prelude::*;

verus! {

/// A total transformation of a parsed value, for [`crate::combinators::map`]
/// and [`crate::combinators::compose`]. `spec_apply` is the mathematical
/// function; `apply` computes it. A mapper is plain data and is its own deep
/// view, so that a parser can also return one as its result.
pub trait MapFn: DeepView<V = Self> + Sized {
    type In: DeepView;

    type Out: DeepView;

    /// The function this mapper computes, on the models of the values.
    spec fn spec_apply(&self, x: <Self::In as DeepView>::V) -> <Self::Out as DeepView>::V;

    /// A mapper is its own deep view.
    proof fn lemma_self_view(&self)
        ensures
            self.deep_view() == *self,
    ;

    /// Compute the function: the result is exactly `spec_apply` of the
    /// argument, at the level of models.
    fn apply(&self, x: Self::In) -> (r: Self::Out)
        ensures
            r.deep_view() == self.spec_apply(x.deep_view()),
    ;
}

/// A partial transformation of a parsed value, for
/// [`crate::combinators::map_option`]: `None` means the value is rejected.
pub trait MapOptFn: Sized {
    type In: DeepView;

    type Out: DeepView;

    /// The partial function this mapper computes, on the models of the
    /// values.
    spec fn spec_apply(&self, x: <Self::In as DeepView>::V) -> Option<
        <Self::Out as DeepView>::V,
    >;

    /// Compute the partial function: the result is exactly `spec_apply` of
    /// the argument, at the level of models.
    fn apply(&self, x: Self::In) -> (r: Option<Self::Out>)
        ensures
            match r {
                Some(v) => self.spec_apply(x.deep_view()) == Some(v.deep_view()),
                None => self.spec_apply(x.deep_view()) is None,
            },
    ;
}

/// A fallible transformation of a parsed value, for
/// [`crate::combinators::map_result`]: an `Err` carries the message that the
/// combinator appends to the log.
pub trait MapResFn: Sized {
    type In: DeepView;

    type Out: DeepView;

    /// The fallible function this mapper computes, on the models of the
    /// values; an error is the text of its message.
    spec fn spec_apply(&self, x: <Self::In as DeepView>::V) -> Result<
        <Self::Out as DeepView>::V,
        Seq<char>,
    >;

    /// Compute the fallible function: the result is exactly `spec_apply` of
    /// the argument, at the level of models.
    fn apply(&self, x: Self::In) -> (r: Result<Self::Out, String>)
        ensures
            match r {
                Ok(v) => self.spec_apply(x.deep_view()) == Ok::<_, Seq<char>>(v.deep_view()),
                Err(e) => self.spec_apply(x.deep_view()) == Err::<
                    <Self::Out as DeepView>::V,
                    _,
                >(e@),
            },
    ;
}

/// A continuation for [`crate::combinators::bind`]: from a parsed value to
/// the next parser to run. `spec_step` is the meaning of that next parser;
/// `step` builds it.
pub trait BindFn: Sized {
    type In: DeepView;

    type P: Parsable;

    /// What the parser built from `x` does, given the stream and log it
    /// starts from.
    spec fn spec_step(&self, x: <Self::In as DeepView>::V, s: StreamModel, l: Seq<MsgModel>) -> Outcome<
        <<Self::P as Parsable>::Result as DeepView>::V,
    >;

    /// The parser built from any value obeys the same two invariants as
    /// every parser: prefix consumption and rollback on failure.
    proof fn lemma_step(&self, x: <Self::In as DeepView>::V, s: StreamModel, l: Seq<MsgModel>)
        requires
            s.wf(),
        ensures
            ({
                let o = self.spec_step(x, s, l);
                &&& o.stream.wf()
                &&& crate::model::advances(s, o.stream)
                &&& (o.res is None ==> o.stream == s)
            }),
    ;

    /// Build the next parser from the parsed value: it does exactly what
    /// `spec_step` of the value's model says.
    fn step(&self, x: Self::In) -> (q: Self::P)
        ensures
            forall|s: StreamModel, l: Seq<MsgModel>| #[trigger]
                q.spec_parse(s, l) == self.spec_step(x.deep_view(), s, l),
    ;
}

/// A value that can hand out a copy with the same model: what
/// [`crate::combinators::pure`] needs in order to return its captured value
/// again and again.
pub trait DupVal: DeepView + Sized {
    /// A copy whose deep view is the same.
    fn dup(&self) -> (r: Self)
        ensures
            r.deep_view() == self.deep_view(),
    ;
}

impl DupVal for char {
    fn dup(&self) -> (r: Self) {
        *self
    }
}

impl DupVal for bool {
    fn dup(&self) -> (r: Self) {
        *self
    }
}

impl DupVal for u32 {
    fn dup(&self) -> (r: Self) {
        *self
    }
}

impl DupVal for u64 {
    fn dup(&self) -> (r: Self) {
        *self
    }
}

impl DupVal for i32 {
    fn dup(&self) -> (r: Self) {
        *self
    }
}

impl DupVal for i64 {
    fn dup(&self) -> (r: Self) {
        *self
    }
}

impl DupVal for usize {
    fn dup(&self) -> (r: Self) {
        *self
    }
}

impl DupVal for () {
    fn dup(&self) -> (r: Self) {
    }
}

impl DupVal for String {
    fn dup(&self) -> (r: Self) {
        self.clone()
    }
}

impl<T: DupVal> DupVal for Option<T> {
    fn dup(&self) -> (r: Self) {
        match self {
            Option::Some(x) => Option::Some(x.dup()),
            Option::None => Option::None,
        }
    }
}

impl<A: DupVal, B: DupVal> DupVal for (A, B) {
    fn dup(&self) -> (r: Self) {
        (self.0.dup(), self.1.dup())
    }
}

impl<T: DupVal> DupVal for Vec<T> {
    fn dup(&self) -> (r: Self) {
        let mut r: Vec<T> = Vec::new();
        let mut i: usize = 0;
        while i < self.len()
            invariant
                i <= self.len(),
                r@.len() == i,
                forall|k: int| 0 <= k < i ==> #[trigger] r@[k].deep_view() == self@[k].deep_view(),
            decreases self.len() - i,
        {
            r.push(self[i].dup());
            i += 1;
        }
        proof {
            assert(r.deep_view() =~= self.deep_view());
        }
        r
    }
}

/// Select the first component of a parsed pair: what
/// [`crate::combinators::left`] maps with.
#[derive(Debug)]
pub struct Fst<A, B> {
    pub marker: core::marker::PhantomData<(A, B)>,
}

impl<A, B> Clone for Fst<A, B> {
    fn clone(&self) -> (r: Self)
        ensures
            r == *self,
    {
        *self
    }
}

impl<A, B> Copy for Fst<A, B> {

}

impl<A, B> DeepView for Fst<A, B> {
    type V = Fst<A, B>;

    open spec fn deep_view(&self) -> Fst<A, B> {
        *self
    }
}

impl<A: DeepView, B: DeepView> MapFn for Fst<A, B> {
    type In = (A, B);

    type Out = A;

    open spec fn spec_apply(&self, x: (A::V, B::V)) -> A::V {
        x.0
    }

    proof fn lemma_self_view(&self) {
    }

    fn apply(&self, x: (A, B)) -> (r: A) {
        let ghost xv = x.deep_view();
        let (a, b) = x;
        proof {
            assert(xv == (a.deep_view(), b.deep_view()));
        }
        a
    }
}

/// Select the second component of a parsed pair: what
/// [`crate::combinators::right`] maps with.
#[derive(Debug)]
pub struct Snd<A, B> {
    pub marker: core::marker::PhantomData<(A, B)>,
}

impl<A, B> Clone for Snd<A, B> {
    fn clone(&self) -> (r: Self)
        ensures
            r == *self,
    {
        *self
    }
}

impl<A, B> Copy for Snd<A, B> {

}

impl<A, B> DeepView for Snd<A, B> {
    type V = Snd<A, B>;

    open spec fn deep_view(&self) -> Snd<A, B> {
        *self
    }
}

impl<A: DeepView, B: DeepView> MapFn for Snd<A, B> {
    type In = (A, B);

    type Out = B;

    open spec fn spec_apply(&self, x: (A::V, B::V)) -> B::V {
        x.1
    }

    proof fn lemma_self_view(&self) {
    }

    fn apply(&self, x: (A, B)) -> (r: B) {
        let ghost xv = x.deep_view();
        let (a, b) = x;
        proof {
            assert(xv == (a.deep_view(), b.deep_view()));
        }
        b
    }
}

/// Select the middle component of a parsed `((a, b), c)`: what
/// [`crate::combinators::mid`] maps with.
#[derive(Debug)]
pub struct Mid3<A, B, C> {
    pub marker: core::marker::PhantomData<(A, B, C)>,
}

impl<A, B, C> Clone for Mid3<A, B, C> {
    fn clone(&self) -> (r: Self)
        ensures
            r == *self,
    {
        *self
    }
}

impl<A, B, C> Copy for Mid3<A, B, C> {

}

impl<A, B, C> DeepView for Mid3<A, B, C> {
    type V = Mid3<A, B, C>;

    open spec fn deep_view(&self) -> Mid3<A, B, C> {
        *self
    }
}

impl<A: DeepView, B: DeepView, C: DeepView> MapFn for Mid3<A, B, C> {
    type In = ((A, B), C);

    type Out = B;

    open spec fn spec_apply(&self, x: ((A::V, B::V), C::V)) -> B::V {
        x.0.1
    }

    proof fn lemma_self_view(&self) {
    }

    fn apply(&self, x: ((A, B), C)) -> (r: B) {
        let ghost xv = x.deep_view();
        let ((a, b), c) = x;
        proof {
            assert(xv == ((a.deep_view(), b.deep_view()), c.deep_view()));
        }
        b
    }
}

} // verus!

//! The combinators: pure constructors that build new parsers from existing
//! ones, each with a precise backtracking contract, and the proofs of the
//! algebraic laws they satisfy.

mod alternative;
mod applicative;
mod basic;
mod fix;
mod lazy;
mod log;
pub mod map;
mod monad;
mod monadic;
mod replicative;
mod sequential;

pub use alternative::AlternativeExt;
pub use alternative::OptionalP;
pub use alternative::OrP;
pub use alternative::lemma_or_associative;
pub use alternative::lemma_or_empty_left;
pub use alternative::lemma_or_empty_right;
pub use alternative::optional;
pub use alternative::or;
pub use applicative::ApplicativeExt;
pub use applicative::Compose;
pub use applicative::compose;
pub use applicative::ApplyTo;
pub use applicative::Composed;
pub use applicative::Composer;
pub use applicative::ComposerWith;
pub use applicative::lemma_compose_composition;
pub use applicative::lemma_compose_homomorphism;
pub use applicative::lemma_compose_identity;
pub use applicative::lemma_compose_interchange;
pub use basic::Empty;
pub use basic::Pure;
pub use basic::empty;
pub use basic::pure;
pub use fix::Fix;
pub use fix::FixDef;
pub use fix::fix;
pub use lazy::Lazy;
pub use lazy::LazyDef;
pub use lazy::lazy;
pub use log::LogExt;
pub use log::InspectP;
pub use log::LogP;
pub use log::RecoverP;
pub use log::error;
pub use log::info;
pub use log::warn;
pub use map::MapExt;
pub use map::MapOptionP;
pub use map::MapP;
pub use map::MapResultP;
pub use map::lemma_map_composition;
pub use map::lemma_map_identity;
pub use map::map_option;
pub use map::map_option_err;
pub use map::map_result;
pub use map::map_result_err;
pub use monad::BindAfter;
pub use monad::BindP;
pub use monad::MonadExt;
pub use monad::PureBind;
pub use monad::bind;
pub use monad::lemma_bind_associative;
pub use monad::lemma_bind_pure_left;
pub use monad::lemma_bind_pure_right;
pub use monadic::MonadicExt;
pub use monadic::bind_option;
pub use monadic::bind_result;
pub use replicative::ManyP;
pub use replicative::ReplicativeExt;
pub use replicative::SomeP;
pub use replicative::lemma_many_total;
pub use replicative::lemma_repeat;
pub use replicative::lemma_some_vs_many;
pub use replicative::many;
pub use replicative::some;
pub use replicative::spec_repeat;
pub use sequential::And;
pub use sequential::SequentialExt;
pub use sequential::and;
pub use sequential::left;
pub use sequential::mid;
pub use sequential::right;

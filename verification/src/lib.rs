//! A parser-combinator engine with verified backtracking: composable building
//! blocks for recursive-descent parsers over character streams, each with a
//! contract that pins down its result, its effect on the stream, and its
//! effect on the diagnostic log.

/// The combinators and the laws they satisfy.
pub mod combinators;
/// Function values with specifications: mappers, continuations, conditions.
pub mod funcs;
/// Positions, messages and the diagnostic log.
pub mod logger;
/// The mathematical model the contracts speak of.
pub mod model;
/// The parsable capability and the parser wrapper.
pub mod parsable;
/// The character stream and the primitive recognizers.
pub mod primitives;
mod text;

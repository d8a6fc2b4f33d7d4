//! The concrete side of the library: the character stream and the primitive
//! recognizers (lexers) that consume it.

mod lexers;
mod stream;

pub use lexers::char;
pub use lexers::space;
pub use lexers::spec_space;
pub use lexers::trim;
pub use lexers::AnyChar;
pub use lexers::AsciiDigit;
pub use lexers::PrimitiveExt;
pub use lexers::SpaceP;
pub use lexers::TrimP;
pub use lexers::eof_text;
pub use lexers::lexer_err;
pub use lexers::literal;
pub use lexers::literal_err_text;
pub use lexers::satisfy;
pub use lexers::satisfy_err_text;
pub use lexers::CharCond;
pub use lexers::CharP;
pub use lexers::LiteralP;
pub use lexers::SatisfyP;
pub use stream::CharStream;
pub use stream::ParseStream;

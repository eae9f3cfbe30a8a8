//! Text buffers for code generation that keep track of an indentation
//! level and prefix every written line with the matching whitespace.

pub mod code_buffer;
pub mod layout;
pub mod printer;

pub use code_buffer::CodeBuffer;
pub use printer::IndentedPrinter;

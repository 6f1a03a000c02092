//! A lexer for path expressions such as `.metadata[1,2,4-6,hello]`: from the text to
//! the ordered steps that a query evaluator walks.

pub mod bracket;
pub mod cursor;
pub mod error;
pub mod laws;
pub mod lexer;
pub mod lexer_constants;
pub mod macro_format;
pub mod number;
pub mod scan;
pub mod text;
pub mod values;

pub use error::{LexResult, LexerError};
pub use bracket::generic_object_index;
pub use lexer::{compile, generic_compiler};
pub use macro_format::MacroFormat;
pub use values::{GenericObjectIndex, LexOperator, LexicalOperations, Slicer};

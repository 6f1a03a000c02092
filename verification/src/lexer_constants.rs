//! The marker characters of the path-expression syntax.

use vstd::prelude::*;

verus! {

/// Takes the character that follows it literally.
pub const LEX_ESCAPE: char = '\\';

/// Insignificant unless escaped.
pub const LEX_ROUGE_WIDESPACE: char = ' ';

/// Separates the named segments of a path.
pub const LEX_IDENTIFIER: char = '.';

/// Reserved for a combinator stage; no scanner reads it.
pub const LEX_PIPE: char = '|';

/// Reserved together with [`LEX_PIPE`]; no scanner reads it.
pub const LEX_CAPSULE_START: char = '(';

/// Reserved together with [`LEX_PIPE`]; no scanner reads it.
pub const LEX_CAPSULE_END: char = ')';

/// Opens a bracketed index.
pub const LEX_GENERIC_START: char = '[';

/// Separates the selectors of a bracketed index.
pub const LEX_GENERIC_SEPARATOR: char = ',';

/// Separates the two bounds of a range.
pub const LEX_GENERIC_SLICE: char = '-';

/// Closes a bracketed index.
pub const LEX_GENERIC_END: char = ']';

} // verus!

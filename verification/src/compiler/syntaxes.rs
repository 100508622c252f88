//! The syntaxes that source files can be written in.

use vstd::prelude::*;

use crate::ast::types::Loc;
use crate::ast::ParsedFile;

pub mod ast_syntax;
pub mod grammar;

verus! {

/// What keeps a text from being a file of a syntax.
pub trait ParseError {
    /// The place in the text that the error is about.
    spec fn place(&self) -> Loc;

    /// The place in the text that the error is about.
    fn loc(&self) -> (loc: Loc)
        ensures
            loc == self.place(),
    ;
}

/// A way to write a file down.
pub trait Syntax {
    /// The file that `inp` holds.
    fn parse(inp: &str) -> Result<ParsedFile, Box<dyn ParseError>>;
}

} // verus!

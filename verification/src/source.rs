//! The two ends of a rewrite: shader text into a syntax tree and back. Both are
//! the work of the `glsl` crate, and what they compute is given a name here.

use vstd::prelude::*;
use glsl::parser::{Parse, ParseError};
use glsl::syntax::{Expr, TranslationUnit};
use vstd::string::StringSliceAdditionalSpecFns;
use crate::alike::unit_alike;
use crate::printable::printable;
use crate::scan::parses_safely;

verus! {

/// What the `glsl` parser makes of a shader source: the tree, or its error.
pub uninterp spec fn parsed_unit(source: Seq<char>) -> Result<TranslationUnit, ParseError>;

/// The text that the `glsl` printer writes for a whole shader.
pub uninterp spec fn shown_unit(unit: TranslationUnit) -> Seq<char>;

/// The text that the `glsl` printer writes for an expression.
pub uninterp spec fn shown_expr(e: Expr) -> Seq<char>;

/// `<glsl::syntax::TranslationUnit as glsl::parser::Parse>::parse`. The parser
/// reads nothing but its argument, so its result is a function of the text.
/// It is given no source on which it stops the program: none with a
/// `#version` number that it cannot hold, none that negates 2147483648, and
/// none that nests beyond the budget of the scan.
#[verifier::external_body]
pub(crate) fn parse_unit(source: &str) -> (r: Result<TranslationUnit, ParseError>)
    requires
        parses_safely(source.spec_bytes()),
    ensures
        r == parsed_unit(source@),
{
    TranslationUnit::parse(source)
}

/// `glsl::transpiler::glsl::show_translation_unit`, writing into a fresh
/// string. The printer reads nothing but the tree, so the text is a function
/// of the tree; and it reads of a list only its items and of a name only its
/// text, so the text is that of every tree that is alike. It is given no tree
/// in which a list is empty of which it takes the first element.
#[verifier::external_body]
pub(crate) fn show_unit(unit: &TranslationUnit) -> (r: String)
    requires
        printable(*unit),
    ensures
        r@ == shown_unit(*unit),
        forall|other: TranslationUnit| #[trigger] unit_alike(*unit, other) ==> r@ == shown_unit(other),
{
    let mut out = String::new();
    glsl::transpiler::glsl::show_translation_unit(&mut out, unit);
    out
}

/// `glsl::transpiler::glsl::show_expr`, writing into a fresh string; a
/// function of the expression alone.
#[verifier::external_body]
pub(crate) fn show_expr(e: &Expr) -> (r: String)
    ensures
        r@ == shown_expr(*e),
{
    let mut out = String::new();
    glsl::transpiler::glsl::show_expr(&mut out, e);
    out
}

} // verus!

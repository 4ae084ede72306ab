//! Rewriting a shader for the host: text in, text out.
//!
//! The source is parsed, the fragment output is sent back in the host's
//! channel order on every way out of `main`, every texture call is taken
//! through the host's channel order, and the tree is printed again. A source
//! is rewritten once: rewriting the result again applies both changes again.

use vstd::prelude::*;
use glsl::syntax::{
    Declaration, ExternalDeclaration, FunctionDefinition, NonEmpty, StorageQualifier,
    TranslationUnit, TypeQualifier, TypeQualifierSpec, TypeSpecifierNonArray, Expr,
};
use vstd::string::StringSliceAdditionalSpecFns;
use crate::exit_points::entry_point_exits;
use crate::printable::{can_print, printable};
use crate::alike_laws::lemma_rewritten_alike;
use crate::printable_laws::lemma_rewritten_stays_printable;
use crate::scan::{parses_safely, scan_source};
use crate::source::{parse_unit, parsed_unit, show_unit, shown_unit};
use crate::texture_calls::exprs::{expr_swizzled, swizzle_expr};
use crate::texture_calls::statements::{swizzle_unit, unit_swizzled};

verus! {

/// Why a source was not rewritten.
#[derive(Debug, Clone, Copy, PartialEq, Eq, Structural)]
pub enum Refusal {
    /// The source is kept from the parser: it nests too deep, or it holds a
    /// number on which the parser stops the program.
    Unsafe,
    /// The parser does not accept the source.
    Syntax,
    /// The parser accepts the source, but the printer cannot print it: a
    /// list of qualifiers, of layout arguments, of field names or of
    /// initializers in it is empty.
    Unprintable,
}

/// What is said of a source that is kept from the parser.
pub const UNSAFE_MESSAGE: &'static str =
    "the source nests too deep or holds a number that cannot be read";

/// What is said of a source that cannot be printed.
pub const UNPRINTABLE_MESSAGE: &'static str =
    "the source holds an empty list of qualifiers, layout arguments, field names or initializers";

/// The source is not a shader that can be rewritten.
#[derive(Debug)]
pub struct ParseFailure {
    pub reason: Refusal,
    /// The parser's account of where and why it stopped, or one of the two
    /// messages above.
    pub info: String,
}

/// Whether `out` is the text of the shader `unit`, rewritten: there is a
/// rewritten tree, and `out` is the printed text of every one. The rewritten
/// trees are alike, and trees that are alike print alike.
pub open spec fn is_rewritten_text(unit: TranslationUnit, out: Seq<char>) -> bool {
    &&& exists|tree: TranslationUnit| #[trigger] unit_rewritten(unit, tree)
    &&& forall|tree: TranslationUnit| #[trigger] unit_rewritten(unit, tree) ==> out == shown_unit(tree)
}

/// Whether `r` is what rewriting the source `text` gives: a refusal where the
/// source is kept from the parser, where the parser does not accept it, or
/// where the printer cannot print it; otherwise the printed text of the
/// rewritten shader.
pub open spec fn is_rewrite_of(text: Seq<char>, r: Result<String, ParseFailure>) -> bool {
    if !parses_safely(vstd::utf8::encode_utf8(text)) {
        r matches Err(e) && e.reason == Refusal::Unsafe && e.info@ == UNSAFE_MESSAGE@
    } else {
        match parsed_unit(text) {
            Err(p) => r matches Err(e) && e.reason == Refusal::Syntax && e.info == p.info,
            Ok(unit) => if printable(unit) {
                r matches Ok(out) && is_rewritten_text(unit, out@)
            } else {
                r matches Err(e) && e.reason == Refusal::Unprintable && e.info@
                    == UNPRINTABLE_MESSAGE@
            },
        }
    }
}

/// The second pass, for one output variable.
pub struct EntryPointExitSwizzler {
    pub out_var: String,
}

impl EntryPointExitSwizzler {
    /// The pass for the output variable `out_var`.
    pub fn new(out_var: String) -> (r: Self)
        ensures
            r.out_var == out_var,
    {
        Self { out_var }
    }
}

/// The whole rewrite: the second pass on `main`, then the first pass on
/// every expression.
pub struct FormatSwizzler {}

/// Whether a type qualifier holds the storage qualifier `out`.
pub open spec fn has_out_storage(q: TypeQualifier) -> bool {
    exists|i: int|
        0 <= i < q.qualifiers.0@.len() && (#[trigger] q.qualifiers.0@[i]
            matches TypeQualifierSpec::Storage(s) && s is Out)
}

/// The name that a top-level item declares as fragment output, if it declares
/// one: a single `vec4`, no array, with the storage qualifier `out`.
pub open spec fn output_name(d: ExternalDeclaration) -> Option<Seq<char>> {
    match d {
        ExternalDeclaration::Declaration(Declaration::InitDeclaratorList(list)) => {
            let head = list.head;
            match (head.ty.qualifier, head.name) {
                (Some(q), Some(n)) => {
                    if has_out_storage(q) && head.ty.ty.ty is Vec4 && head.ty.ty.array_specifier
                        is None && head.array_specifier is None {
                        Some(n.0@)
                    } else {
                        None
                    }
                },
                _ => None,
            }
        },
        _ => None,
    }
}

/// The first fragment output declared at or after the item `from`.
pub open spec fn output_variable_from(items: Seq<ExternalDeclaration>, from: int) -> Option<
    Seq<char>,
>
    decreases items.len() - from,
{
    if from < 0 || from >= items.len() {
        None
    } else if output_name(items[from]) is Some {
        output_name(items[from])
    } else {
        output_variable_from(items, from + 1)
    }
}

/// The fragment output of a shader: the first one that it declares.
pub open spec fn output_variable(unit: TranslationUnit) -> Option<Seq<char>> {
    output_variable_from(unit.0.0@, 0)
}

/// Whether a top-level item is a definition of a function named `main`.
pub open spec fn is_entry_point(d: ExternalDeclaration) -> bool {
    d matches ExternalDeclaration::FunctionDefinition(f) && f.prototype.name.0@ == "main"@
}

/// The place of the first definition of `main` at or after the item `from`.
pub open spec fn entry_point_from(items: Seq<ExternalDeclaration>, from: int) -> Option<int>
    decreases items.len() - from,
{
    if from < 0 || from >= items.len() {
        None
    } else if is_entry_point(items[from]) {
        Some(from)
    } else {
        entry_point_from(items, from + 1)
    }
}

/// The place of the entry point of a shader: its first definition of `main`.
pub open spec fn entry_point(unit: TranslationUnit) -> Option<int> {
    entry_point_from(unit.0.0@, 0)
}

/// `b` is the shader `a` after the second pass. Without a fragment output, or
/// without a `main`, nothing changes; otherwise the body of the first `main`
/// changes and nothing else.
pub open spec fn unit_exits(a: TranslationUnit, b: TranslationUnit) -> bool {
    match (output_variable(a), entry_point(a)) {
        (Some(name), Some(k)) => {
            &&& b.0.0@.len() == a.0.0@.len()
            &&& forall|i: int| 0 <= i < a.0.0@.len() && i != k ==> #[trigger] b.0.0@[i] == a.0.0@[i]
            &&& a.0.0@[k] matches ExternalDeclaration::FunctionDefinition(f) && (b.0.0@[k]
                matches ExternalDeclaration::FunctionDefinition(f2) && f2.prototype == f.prototype
                && entry_point_exits(name, f.statement, f2.statement))
        },
        _ => b == a,
    }
}

/// `b` is the shader `a`, rewritten for the host: the second pass, then the
/// first pass on its result.
pub open spec fn unit_rewritten(a: TranslationUnit, b: TranslationUnit) -> bool {
    exists|mid: TranslationUnit| #[trigger] unit_exits(a, mid) && unit_swizzled(mid, b)
}

/// A shader that declares no fragment output gets the first pass and nothing
/// else: no statement is added to it.
pub proof fn lemma_no_output_no_exit(a: TranslationUnit, b: TranslationUnit)
    requires
        output_variable(a) is None,
        unit_rewritten(a, b),
    ensures
        unit_swizzled(a, b),
{
}

/// A shader without a function `main` gets the first pass and nothing else.
pub proof fn lemma_no_entry_point_no_exit(a: TranslationUnit, b: TranslationUnit)
    requires
        entry_point(a) is None,
        unit_rewritten(a, b),
    ensures
        unit_swizzled(a, b),
{
}

fn qualifier_has_out(q: &TypeQualifier) -> (r: bool)
    ensures
        r == has_out_storage(*q),
{
    let n = q.qualifiers.0.len();
    for i in 0..n
        invariant
            n == q.qualifiers.0@.len(),
            forall|j: int|
                0 <= j < i ==> !(#[trigger] q.qualifiers.0@[j] matches TypeQualifierSpec::Storage(
                    s,
                ) && s is Out),
    {
        match &q.qualifiers.0[i] {
            TypeQualifierSpec::Storage(StorageQualifier::Out) => {
                return true;
            },
            _ => {},
        }
    }
    false
}

fn declared_output(d: &ExternalDeclaration) -> (r: Option<String>)
    ensures
        match output_name(*d) {
            Some(name) => r matches Some(s) && s@ == name,
            None => r is None,
        },
{
    match d {
        ExternalDeclaration::Declaration(Declaration::InitDeclaratorList(list)) => {
            let head = &list.head;
            let plain_vec4 = match &head.ty.ty.ty {
                TypeSpecifierNonArray::Vec4 => head.ty.ty.array_specifier.is_none()
                    && head.array_specifier.is_none(),
                _ => false,
            };
            match (&head.ty.qualifier, &head.name) {
                (Some(q), Some(name)) => {
                    if plain_vec4 && qualifier_has_out(q) {
                        Some(name.0.clone())
                    } else {
                        None
                    }
                },
                _ => None,
            }
        },
        _ => None,
    }
}

/// The fragment output that a shader declares, if any.
pub fn find_output_variable(unit: &TranslationUnit) -> (r: Option<String>)
    ensures
        match output_variable(*unit) {
            Some(name) => r matches Some(s) && s@ == name,
            None => r is None,
        },
{
    let n = unit.0.0.len();
    for i in 0..n
        invariant
            n == unit.0.0@.len(),
            output_variable(*unit) == output_variable_from(unit.0.0@, i as int),
    {
        match declared_output(&unit.0.0[i]) {
            Some(name) => {
                return Some(name);
            },
            None => {},
        }
    }
    None
}

fn defines_entry_point(d: &ExternalDeclaration) -> (r: bool)
    ensures
        r == is_entry_point(*d),
{
    match d {
        ExternalDeclaration::FunctionDefinition(f) => {
            let main: String = "main".to_owned();
            f.prototype.name.0.eq(&main)
        },
        _ => false,
    }
}

/// The place of the first definition of `main` in a shader, if it has one.
pub fn find_entry_point(unit: &TranslationUnit) -> (r: Option<usize>)
    ensures
        match r {
            Some(k) => entry_point(*unit) == Some(k as int) && k < unit.0.0@.len()
                && is_entry_point(unit.0.0@[k as int]),
            None => entry_point(*unit) is None,
        },
{
    let n = unit.0.0.len();
    for i in 0..n
        invariant
            n == unit.0.0@.len(),
            entry_point(*unit) == entry_point_from(unit.0.0@, i as int),
    {
        if defines_entry_point(&unit.0.0[i]) {
            return Some(i);
        }
    }
    None
}

impl FormatSwizzler {
    /// The rewrite; it has nothing to configure.
    pub fn new() -> (r: Self) {
        Self {  }
    }

    /// The first pass on one expression.
    pub fn visit_expr(&self, e: Expr) -> (r: Expr)
        ensures
            expr_swizzled(e, r),
    {
        swizzle_expr(e)
    }

    /// The second pass on a shader.
    pub fn visit_exit_points(&self, unit: TranslationUnit) -> (r: TranslationUnit)
        ensures
            unit_exits(unit, r),
    {
        let swizzler = match find_output_variable(&unit) {
            Some(name) => EntryPointExitSwizzler::new(name),
            None => {
                return unit;
            },
        };
        let k = match find_entry_point(&unit) {
            Some(k) => k,
            None => {
                return unit;
            },
        };
        let TranslationUnit(NonEmpty(v)) = unit;
        let mut out: Vec<ExternalDeclaration> = Vec::new();
        for x in it: v.into_iter()
            invariant
                it.seq() == v@,
                v == unit.0.0,
                0 <= k < v@.len(),
                is_entry_point(v@[k as int]),
                out@.len() == it.index(),
                forall|j: int| 0 <= j < out@.len() && j != k ==> #[trigger] out@[j] == v@[j],
                k < out@.len() ==> (v@[k as int] matches ExternalDeclaration::FunctionDefinition(f)
                    && (out@[k as int] matches ExternalDeclaration::FunctionDefinition(f2)
                    && f2.prototype == f.prototype && entry_point_exits(
                    swizzler.name(),
                    f.statement,
                    f2.statement,
                ))),
        {
            if out.len() == k {
                match x {
                    ExternalDeclaration::FunctionDefinition(f) => {
                        let FunctionDefinition { prototype, statement } = f;
                        let statement = swizzler.visit_entry_point(statement);
                        out.push(
                            ExternalDeclaration::FunctionDefinition(
                                FunctionDefinition { prototype, statement },
                            ),
                        );
                    },
                    other => {
                        out.push(other);
                    },
                }
            } else {
                out.push(x);
            }
        }
        TranslationUnit(NonEmpty(out))
    }

    /// Both passes on a shader.
    pub fn visit_translation_unit(&self, unit: TranslationUnit) -> (r: TranslationUnit)
        ensures
            unit_rewritten(unit, r),
    {
        let mid = self.visit_exit_points(unit);
        let out = swizzle_unit(mid);
        assert(unit_exits(unit, mid) && unit_swizzled(mid, out));
        out
    }
}

/// The rewrite of a source depends on its text alone: two results for one text
/// are both refusals for one reason with one message, or both the same text.
pub proof fn lemma_rewrite_is_a_function(
    text: Seq<char>,
    r: Result<String, ParseFailure>,
    r2: Result<String, ParseFailure>,
)
    requires
        is_rewrite_of(text, r),
        is_rewrite_of(text, r2),
    ensures
        match (r, r2) {
            (Ok(out), Ok(out2)) => out@ == out2@,
            (Err(e), Err(e2)) => e.reason == e2.reason && e.info@ == e2.info@,
            _ => false,
        },
{
    if parses_safely(vstd::utf8::encode_utf8(text)) {
        match parsed_unit(text) {
            Ok(unit) => {
                if printable(unit) {
                    let tree = choose|tree: TranslationUnit| #[trigger] unit_rewritten(unit, tree);
                    assert(unit_rewritten(unit, tree));
                }
            },
            Err(_) => {},
        }
    }
}

/// Rewrites a shader source for the host. A source that is kept from the
/// parser, that does not parse, or that cannot be printed is refused, and
/// nothing is rewritten.
pub fn convert_output_to_ae_format(module: &str) -> (r: Result<String, ParseFailure>)
    ensures
        is_rewrite_of(module@, r),
{
    if !scan_source(module) {
        return Err(ParseFailure { reason: Refusal::Unsafe, info: UNSAFE_MESSAGE.to_owned() });
    }
    match parse_unit(module) {
        Ok(unit) => {
            if !can_print(&unit) {
                return Err(
                    ParseFailure {
                        reason: Refusal::Unprintable,
                        info: UNPRINTABLE_MESSAGE.to_owned(),
                    },
                );
            }
            let out = FormatSwizzler::new().visit_translation_unit(unit);
            proof {
                lemma_rewritten_stays_printable(unit, out);
            }
            let text = show_unit(&out);
            assert forall|tree: TranslationUnit| #[trigger]
                unit_rewritten(unit, tree) implies text@ == shown_unit(tree) by {
                lemma_rewritten_alike(unit, out, tree);
            }
            assert(is_rewritten_text(unit, text@));
            Ok(text)
        },
        Err(e) => Err(ParseFailure { reason: Refusal::Syntax, info: e.info }),
    }
}

} // verus!

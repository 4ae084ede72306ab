//! What holds of a whole rewrite: the first pass neither adds nor hides a way
//! out of `main`, so the count of exit statements that the second pass
//! established is the count in the shader that is printed.

use vstd::prelude::*;
use glsl::syntax::{
    CompoundStatement, ExternalDeclaration, IterationStatement, SelectionRestStatement,
    SimpleStatement, Statement, TranslationUnit,
};
use crate::exit_laws::{
    count_in_compound, count_in_list, count_in_simple, count_in_statement,
    lemma_one_exit_per_way_out, Counted,
};
use crate::preprocessing::{
    entry_point, entry_point_from, is_entry_point, output_variable, unit_exits, unit_rewritten,
};
use crate::texture_calls::exprs::expr_swizzled;
use crate::texture_calls::statements::{
    compound_swizzled, external_swizzled, function_swizzled, iteration_swizzled,
    selection_rest_swizzled, selection_swizzled, simple_swizzled, statement_swizzled,
    statements_swizzled, switch_swizzled, unit_swizzled,
};

verus! {

/// The first pass turns no statement into a `return` or into an exit
/// statement, and none of them into anything else.
pub proof fn lemma_swizzle_keeps_kind(kind: Counted, a: Statement, b: Statement)
    requires
        statement_swizzled(a, b),
    ensures
        kind.holds(b) == kind.holds(a),
{
    reveal_with_fuel(expr_swizzled, 4);
    match (a, b) {
        (Statement::Simple(s), Statement::Simple(s2)) => {
            assert(simple_swizzled(*s, *s2));
        },
        _ => {},
    }
}

/// The first pass keeps the count over the first statements of a list.
pub proof fn lemma_swizzle_keeps_list_count(
    kind: Counted,
    a: Vec<Statement>,
    b: Vec<Statement>,
    n: int,
)
    requires
        statements_swizzled(a, b),
        0 <= n <= a@.len(),
    ensures
        count_in_list(kind, b@, n) == count_in_list(kind, a@, n),
    decreases a, n,
{
    if n > 0 {
        lemma_swizzle_keeps_list_count(kind, a, b, n - 1);
        lemma_swizzle_keeps_count(kind, a@[n - 1], b@[n - 1]);
    }
}

/// The first pass keeps the count over a statement.
pub proof fn lemma_swizzle_keeps_count(kind: Counted, a: Statement, b: Statement)
    requires
        statement_swizzled(a, b),
    ensures
        count_in_statement(kind, b) == count_in_statement(kind, a),
    decreases a, 0int,
{
    lemma_swizzle_keeps_kind(kind, a, b);
    match (a, b) {
        (Statement::Compound(c), Statement::Compound(c2)) => {
            lemma_swizzle_keeps_compound_count(kind, *c, *c2);
        },
        (Statement::Simple(s), Statement::Simple(s2)) => {
            lemma_swizzle_keeps_simple_count(kind, *s, *s2);
        },
        _ => {},
    }
}

/// The first pass keeps the count over a block.
pub proof fn lemma_swizzle_keeps_compound_count(
    kind: Counted,
    a: CompoundStatement,
    b: CompoundStatement,
)
    requires
        compound_swizzled(a, b),
    ensures
        count_in_compound(kind, b) == count_in_compound(kind, a),
    decreases a, 0int,
{
    lemma_swizzle_keeps_list_count(
        kind,
        a.statement_list,
        b.statement_list,
        a.statement_list@.len() as int,
    );
}

/// The first pass keeps the count over a simple statement.
pub proof fn lemma_swizzle_keeps_simple_count(
    kind: Counted,
    a: SimpleStatement,
    b: SimpleStatement,
)
    requires
        simple_swizzled(a, b),
    ensures
        count_in_simple(kind, b) == count_in_simple(kind, a),
    decreases a, 0int,
{
    match (a, b) {
        (SimpleStatement::Selection(s), SimpleStatement::Selection(s2)) => {
            assert(selection_swizzled(s, s2));
            assert(selection_rest_swizzled(s.rest, s2.rest));
            match (s.rest, s2.rest) {
                (
                    SelectionRestStatement::Statement(t),
                    SelectionRestStatement::Statement(t2),
                ) => {
                    lemma_swizzle_keeps_count(kind, *t, *t2);
                },
                (SelectionRestStatement::Else(t, e), SelectionRestStatement::Else(t2, e2)) => {
                    lemma_swizzle_keeps_count(kind, *t, *t2);
                    lemma_swizzle_keeps_count(kind, *e, *e2);
                },
                _ => {},
            }
        },
        (SimpleStatement::Switch(s), SimpleStatement::Switch(s2)) => {
            assert(switch_swizzled(s, s2));
            lemma_swizzle_keeps_list_count(kind, s.body, s2.body, s.body@.len() as int);
        },
        (SimpleStatement::Iteration(i), SimpleStatement::Iteration(i2)) => {
            assert(iteration_swizzled(i, i2));
            match (i, i2) {
                (IterationStatement::While(_, s), IterationStatement::While(_, s2)) => {
                    lemma_swizzle_keeps_count(kind, *s, *s2);
                },
                (IterationStatement::DoWhile(s, _), IterationStatement::DoWhile(s2, _)) => {
                    lemma_swizzle_keeps_count(kind, *s, *s2);
                },
                (IterationStatement::For(_, _, s), IterationStatement::For(_, _, s2)) => {
                    lemma_swizzle_keeps_count(kind, *s, *s2);
                },
                _ => {},
            }
        },
        _ => {},
    }
}

/// Where a search for `main` succeeds, it points at a definition of `main`.
pub proof fn lemma_entry_point_found(items: Seq<ExternalDeclaration>, from: int)
    requires
        0 <= from,
    ensures
        entry_point_from(items, from) matches Some(k) ==> from <= k < items.len()
            && is_entry_point(items[k]),
    decreases items.len() - from,
{
    if from < items.len() && !is_entry_point(items[from]) {
        lemma_entry_point_found(items, from + 1);
    }
}

/// In a shader that declares a fragment output `name` and defines `main`, the
/// rewritten body of `main` holds one exit statement for each `return` that
/// the body had and one more, beside the exit statements that it held before;
/// a body that held none and had N `return`s comes out with N + 1. The
/// `return`s are as many as before.
pub proof fn lemma_rewritten_exits(a: TranslationUnit, b: TranslationUnit, name: Seq<char>, k: int)
    requires
        unit_rewritten(a, b),
        output_variable(a) == Some(name),
        entry_point(a) == Some(k),
    ensures
        0 <= k < a.0.0@.len() == b.0.0@.len(),
        a.0.0@[k] matches ExternalDeclaration::FunctionDefinition(f) && (b.0.0@[k]
            matches ExternalDeclaration::FunctionDefinition(g) && count_in_compound(
            Counted::Exits(name),
            g.statement,
        ) == count_in_compound(Counted::Exits(name), f.statement) + count_in_compound(
            Counted::Returns,
            f.statement,
        ) + 1 && count_in_compound(Counted::Returns, g.statement) == count_in_compound(
            Counted::Returns,
            f.statement,
        )),
{
    lemma_entry_point_found(a.0.0@, 0);
    let mid = choose|mid: TranslationUnit| #[trigger] unit_exits(a, mid) && unit_swizzled(mid, b);
    assert(external_swizzled(mid.0.0@[k], b.0.0@[k]));
    match (a.0.0@[k], mid.0.0@[k], b.0.0@[k]) {
        (
            ExternalDeclaration::FunctionDefinition(f),
            ExternalDeclaration::FunctionDefinition(m),
            ExternalDeclaration::FunctionDefinition(g),
        ) => {
            assert(function_swizzled(m, g));
            lemma_one_exit_per_way_out(name, f.statement, m.statement);
            lemma_swizzle_keeps_compound_count(Counted::Exits(name), m.statement, g.statement);
            lemma_swizzle_keeps_compound_count(Counted::Returns, m.statement, g.statement);
        },
        _ => {},
    }
}

/// In a shader that declares no fragment output, or defines no `main`, every
/// function comes out with the `return`s and the exit statements that it had:
/// the rewrite adds no statement.
pub proof fn lemma_nothing_added_without_output(
    a: TranslationUnit,
    b: TranslationUnit,
    kind: Counted,
    i: int,
)
    requires
        unit_rewritten(a, b),
        output_variable(a) is None || entry_point(a) is None,
        0 <= i < a.0.0@.len(),
    ensures
        a.0.0@.len() == b.0.0@.len(),
        a.0.0@[i] matches ExternalDeclaration::FunctionDefinition(f) ==> (b.0.0@[i]
            matches ExternalDeclaration::FunctionDefinition(g) && g.statement.statement_list@.len()
            == f.statement.statement_list@.len() && count_in_compound(kind, g.statement)
            == count_in_compound(kind, f.statement)),
{
    assert(unit_swizzled(a, b));
    assert(external_swizzled(a.0.0@[i], b.0.0@[i]));
    match (a.0.0@[i], b.0.0@[i]) {
        (
            ExternalDeclaration::FunctionDefinition(f),
            ExternalDeclaration::FunctionDefinition(g),
        ) => {
            assert(function_swizzled(f, g));
            assert(compound_swizzled(f.statement, g.statement));
            assert(statements_swizzled(f.statement.statement_list, g.statement.statement_list));
            lemma_swizzle_keeps_compound_count(kind, f.statement, g.statement);
        },
        _ => {},
    }
}

} // verus!

//! Both passes keep a printable shader printable: neither empties a list, and
//! what they add holds none of the lists that the printer takes the first
//! element of.

use vstd::prelude::*;
use glsl::syntax::{
    Block, CompoundStatement, Condition, Declaration, ExternalDeclaration, ForInitStatement,
    FullySpecifiedType, FunctionDefinition, FunctionParameterDeclaration, FunctionPrototype,
    InitDeclaratorList, Initializer, IterationStatement, SelectionRestStatement,
    SimpleStatement, Statement, StructFieldSpecifier, TranslationUnit, TypeQualifier,
    TypeSpecifier, TypeSpecifierNonArray,
};
use crate::exit_points::{
    body_exits, compound_exits, entry_point_exits, is_exit_swizzle, is_return, iteration_exits,
    list_exits, prefix_exits, selection_exits, simple_exits, statement_exits, switch_exits,
};
use crate::preprocessing::{entry_point, output_variable, unit_exits, unit_rewritten};
use crate::printable::{
    printable, printable_block, printable_compound, printable_condition, printable_declaration,
    printable_external, printable_field, printable_fields, printable_full_type,
    printable_function, printable_init_list, printable_initializer, printable_iteration,
    printable_non_array, printable_opt_initializer, printable_opt_qualifier,
    printable_parameter, printable_prototype, printable_qualifier, printable_qualifier_spec,
    printable_selection, printable_simple, printable_single_no_type, printable_statement,
    printable_statements, printable_struct, printable_switch, printable_type,
};
use crate::texture_calls::declarations::{
    block_swizzled, declaration_swizzled, init_list_swizzled, initializer_swizzled,
    opt_initializer_swizzled, parameter_swizzled, prototype_swizzled, single_declaration_swizzled,
    single_no_type_swizzled,
};
use crate::texture_calls::statements::{
    compound_swizzled, condition_swizzled, external_swizzled, for_init_swizzled,
    for_rest_swizzled, function_swizzled, iteration_swizzled, selection_rest_swizzled,
    selection_swizzled, simple_swizzled, statement_swizzled, statements_swizzled,
    switch_swizzled, unit_swizzled,
};
use crate::texture_calls::type_specs::{
    full_type_swizzled, non_array_swizzled, opt_qualifier_swizzled, qualifier_spec_swizzled,
    qualifier_swizzled, struct_field_swizzled, struct_swizzled, type_specifier_swizzled,
};

verus! {

/// The first pass keeps a printable list of qualifiers printable.
pub proof fn lemma_qualifier_stays_printable(a: TypeQualifier, b: TypeQualifier)
    requires
        qualifier_swizzled(a, b),
        printable_qualifier(a),
    ensures
        printable_qualifier(b),
{
    assert forall|i: int| 0 <= i < b.qualifiers.0@.len() implies printable_qualifier_spec(
        #[trigger] b.qualifiers.0@[i],
    ) by {
        assert(qualifier_spec_swizzled(a.qualifiers.0@[i], b.qualifiers.0@[i]));
        assert(printable_qualifier_spec(a.qualifiers.0@[i]));
    }
}

/// The first pass keeps a printable optional list of qualifiers printable.
pub proof fn lemma_opt_qualifier_stays_printable(a: Option<TypeQualifier>, b: Option<TypeQualifier>)
    requires
        opt_qualifier_swizzled(a, b),
        printable_opt_qualifier(a),
    ensures
        printable_opt_qualifier(b),
{
    match (a, b) {
        (Some(x), Some(y)) => lemma_qualifier_stays_printable(x, y),
        _ => {},
    }
}

/// The first pass keeps a printable type printable.
pub proof fn lemma_type_stays_printable(a: TypeSpecifier, b: TypeSpecifier)
    requires
        type_specifier_swizzled(a, b),
        printable_type(a),
    ensures
        printable_type(b),
    decreases a,
{
    assert(non_array_swizzled(a.ty, b.ty));
    match (a.ty, b.ty) {
        (TypeSpecifierNonArray::Struct(s), TypeSpecifierNonArray::Struct(t)) => {
            assert(struct_swizzled(s, t));
            assert(printable_non_array(a.ty));
            assert(printable_struct(s));
            assert(printable_fields(s.fields.0));
            assert forall|i: int| 0 <= i < t.fields.0@.len() implies printable_field(
                #[trigger] t.fields.0@[i],
            ) by {
                assert(printable_field(s.fields.0@[i]));
                lemma_field_stays_printable(s.fields.0@[i], t.fields.0@[i]);
            }
            assert(printable_fields(t.fields.0));
            assert(printable_struct(t));
            assert(printable_non_array(b.ty));
        },
        _ => {},
    }
}

/// The first pass keeps a printable struct field printable.
pub proof fn lemma_field_stays_printable(a: StructFieldSpecifier, b: StructFieldSpecifier)
    requires
        struct_field_swizzled(a, b),
        printable_field(a),
    ensures
        printable_field(b),
    decreases a,
{
    lemma_opt_qualifier_stays_printable(a.qualifier, b.qualifier);
    lemma_type_stays_printable(a.ty, b.ty);
}

/// The first pass keeps a printable qualified type printable.
pub proof fn lemma_full_type_stays_printable(a: FullySpecifiedType, b: FullySpecifiedType)
    requires
        full_type_swizzled(a, b),
        printable_full_type(a),
    ensures
        printable_full_type(b),
{
    lemma_opt_qualifier_stays_printable(a.qualifier, b.qualifier);
    lemma_type_stays_printable(a.ty, b.ty);
}

/// The first pass keeps a printable initializer printable.
pub proof fn lemma_initializer_stays_printable(a: Initializer, b: Initializer)
    requires
        initializer_swizzled(a, b),
        printable_initializer(a),
    ensures
        printable_initializer(b),
    decreases a,
{
    match (a, b) {
        (Initializer::List(x), Initializer::List(y)) => {
            assert forall|k: int| 0 <= k < y.0@.len() implies printable_initializer(
                #[trigger] y.0@[k],
            ) by {
                assert(printable_initializer(x.0@[k]));
                lemma_initializer_stays_printable(x.0@[k], y.0@[k]);
            }
        },
        _ => {},
    }
}

/// The first pass keeps a printable optional initializer printable.
pub proof fn lemma_opt_initializer_stays_printable(a: Option<Initializer>, b: Option<Initializer>)
    requires
        opt_initializer_swizzled(a, b),
        printable_opt_initializer(a),
    ensures
        printable_opt_initializer(b),
{
    match (a, b) {
        (Some(x), Some(y)) => lemma_initializer_stays_printable(x, y),
        _ => {},
    }
}

/// The first pass keeps a printable variable declaration printable.
pub proof fn lemma_init_list_stays_printable(a: InitDeclaratorList, b: InitDeclaratorList)
    requires
        init_list_swizzled(a, b),
        printable_init_list(a),
    ensures
        printable_init_list(b),
{
    assert(single_declaration_swizzled(a.head, b.head));
    lemma_full_type_stays_printable(a.head.ty, b.head.ty);
    lemma_opt_initializer_stays_printable(a.head.initializer, b.head.initializer);
    assert forall|i: int| 0 <= i < b.tail@.len() implies printable_single_no_type(
        #[trigger] b.tail@[i],
    ) by {
        assert(single_no_type_swizzled(a.tail@[i], b.tail@[i]));
        assert(printable_single_no_type(a.tail@[i]));
        lemma_opt_initializer_stays_printable(a.tail@[i].initializer, b.tail@[i].initializer);
    }
}

/// The first pass keeps a printable parameter printable.
pub proof fn lemma_parameter_stays_printable(
    a: FunctionParameterDeclaration,
    b: FunctionParameterDeclaration,
)
    requires
        parameter_swizzled(a, b),
        printable_parameter(a),
    ensures
        printable_parameter(b),
{
    match (a, b) {
        (
            FunctionParameterDeclaration::Named(q, d),
            FunctionParameterDeclaration::Named(q2, d2),
        ) => {
            lemma_opt_qualifier_stays_printable(q, q2);
            lemma_type_stays_printable(d.ty, d2.ty);
        },
        (
            FunctionParameterDeclaration::Unnamed(q, t),
            FunctionParameterDeclaration::Unnamed(q2, t2),
        ) => {
            lemma_opt_qualifier_stays_printable(q, q2);
            lemma_type_stays_printable(t, t2);
        },
        _ => {},
    }
}

/// The first pass keeps a printable function prototype printable.
pub proof fn lemma_prototype_stays_printable(a: FunctionPrototype, b: FunctionPrototype)
    requires
        prototype_swizzled(a, b),
        printable_prototype(a),
    ensures
        printable_prototype(b),
{
    lemma_full_type_stays_printable(a.ty, b.ty);
    assert forall|i: int| 0 <= i < b.parameters@.len() implies printable_parameter(
        #[trigger] b.parameters@[i],
    ) by {
        assert(printable_parameter(a.parameters@[i]));
        lemma_parameter_stays_printable(a.parameters@[i], b.parameters@[i]);
    }
}

/// The first pass keeps a printable interface block printable.
pub proof fn lemma_block_stays_printable(a: Block, b: Block)
    requires
        block_swizzled(a, b),
        printable_block(a),
    ensures
        printable_block(b),
{
    lemma_qualifier_stays_printable(a.qualifier, b.qualifier);
    assert(printable_fields(a.fields));
    assert forall|i: int| 0 <= i < b.fields@.len() implies printable_field(
        #[trigger] b.fields@[i],
    ) by {
        assert(printable_field(a.fields@[i]));
        lemma_field_stays_printable(a.fields@[i], b.fields@[i]);
    }
    assert(printable_fields(b.fields));
}

/// The first pass keeps a printable declaration printable.
pub proof fn lemma_declaration_stays_printable(a: Declaration, b: Declaration)
    requires
        declaration_swizzled(a, b),
        printable_declaration(a),
    ensures
        printable_declaration(b),
{
    match (a, b) {
        (Declaration::FunctionPrototype(x), Declaration::FunctionPrototype(y)) => {
            lemma_prototype_stays_printable(x, y);
        },
        (Declaration::InitDeclaratorList(x), Declaration::InitDeclaratorList(y)) => {
            lemma_init_list_stays_printable(x, y);
        },
        (Declaration::Precision(_, x), Declaration::Precision(_, y)) => {
            lemma_type_stays_printable(x, y);
        },
        (Declaration::Block(x), Declaration::Block(y)) => {
            lemma_block_stays_printable(x, y);
        },
        (Declaration::Global(x, _), Declaration::Global(y, _)) => {
            lemma_qualifier_stays_printable(x, y);
        },
        _ => {},
    }
}

/// The first pass keeps a printable loop condition printable.
pub proof fn lemma_condition_stays_printable(a: Condition, b: Condition)
    requires
        condition_swizzled(a, b),
        printable_condition(a),
    ensures
        printable_condition(b),
{
    match (a, b) {
        (Condition::Assignment(t, _, i), Condition::Assignment(t2, _, i2)) => {
            lemma_full_type_stays_printable(t, t2);
            lemma_initializer_stays_printable(i, i2);
        },
        _ => {},
    }
}

/// The first pass keeps a printable statement list printable.
pub proof fn lemma_statements_stay_printable(a: Vec<Statement>, b: Vec<Statement>)
    requires
        statements_swizzled(a, b),
        printable_statements(a),
    ensures
        printable_statements(b),
    decreases a, 1int,
{
    assert forall|i: int| 0 <= i < b@.len() implies printable_statement(#[trigger] b@[i]) by {
        assert(printable_statement(a@[i]));
        lemma_statement_stays_printable(a@[i], b@[i]);
    }
}

/// The first pass keeps a printable statement printable.
pub proof fn lemma_statement_stays_printable(a: Statement, b: Statement)
    requires
        statement_swizzled(a, b),
        printable_statement(a),
    ensures
        printable_statement(b),
    decreases a, 0int,
{
    match (a, b) {
        (Statement::Compound(c), Statement::Compound(d)) => {
            assert(compound_swizzled(*c, *d));
            assert(printable_compound(*c));
            lemma_statements_stay_printable(c.statement_list, d.statement_list);
            assert(printable_compound(*d));
        },
        (Statement::Simple(x), Statement::Simple(y)) => {
            lemma_simple_stays_printable(*x, *y);
        },
        _ => {},
    }
}

/// The first pass keeps a printable simple statement printable.
pub proof fn lemma_simple_stays_printable(a: SimpleStatement, b: SimpleStatement)
    requires
        simple_swizzled(a, b),
        printable_simple(a),
    ensures
        printable_simple(b),
    decreases a, 0int,
{
    match (a, b) {
        (SimpleStatement::Declaration(x), SimpleStatement::Declaration(y)) => {
            lemma_declaration_stays_printable(x, y);
        },
        (SimpleStatement::Selection(x), SimpleStatement::Selection(y)) => {
            assert(selection_swizzled(x, y));
            assert(selection_rest_swizzled(x.rest, y.rest));
            assert(printable_selection(x));
            match (x.rest, y.rest) {
                (
                    SelectionRestStatement::Statement(t),
                    SelectionRestStatement::Statement(t2),
                ) => {
                    lemma_statement_stays_printable(*t, *t2);
                },
                (SelectionRestStatement::Else(t, e), SelectionRestStatement::Else(t2, e2)) => {
                    lemma_statement_stays_printable(*t, *t2);
                    lemma_statement_stays_printable(*e, *e2);
                },
                _ => {},
            }
            assert(printable_selection(y));
        },
        (SimpleStatement::Switch(x), SimpleStatement::Switch(y)) => {
            assert(switch_swizzled(x, y));
            assert(printable_switch(x));
            lemma_statements_stay_printable(x.body, y.body);
            assert(printable_switch(y));
        },
        (SimpleStatement::Iteration(x), SimpleStatement::Iteration(y)) => {
            assert(iteration_swizzled(x, y));
            assert(printable_iteration(x));
            match (x, y) {
                (IterationStatement::While(c, s), IterationStatement::While(c2, s2)) => {
                    lemma_condition_stays_printable(c, c2);
                    lemma_statement_stays_printable(*s, *s2);
                },
                (IterationStatement::DoWhile(s, _), IterationStatement::DoWhile(s2, _)) => {
                    lemma_statement_stays_printable(*s, *s2);
                },
                (IterationStatement::For(i, r, s), IterationStatement::For(i2, r2, s2)) => {
                    assert(for_init_swizzled(i, i2));
                    match (i, i2) {
                        (
                            ForInitStatement::Declaration(d),
                            ForInitStatement::Declaration(d2),
                        ) => {
                            lemma_declaration_stays_printable(*d, *d2);
                        },
                        _ => {},
                    }
                    assert(for_rest_swizzled(r, r2));
                    match (r.condition, r2.condition) {
                        (Some(c), Some(c2)) => {
                            lemma_condition_stays_printable(c, c2);
                        },
                        _ => {},
                    }
                    lemma_statement_stays_printable(*s, *s2);
                },
                _ => {},
            }
            assert(printable_iteration(y));
        },
        _ => {},
    }
}

/// The first pass keeps a printable shader printable.
pub proof fn lemma_swizzled_stays_printable(a: TranslationUnit, b: TranslationUnit)
    requires
        unit_swizzled(a, b),
        printable(a),
    ensures
        printable(b),
{
    assert forall|i: int| 0 <= i < b.0.0@.len() implies printable_external(
        #[trigger] b.0.0@[i],
    ) by {
        assert(printable_external(a.0.0@[i]));
        assert(external_swizzled(a.0.0@[i], b.0.0@[i]));
        match (a.0.0@[i], b.0.0@[i]) {
            (
                ExternalDeclaration::FunctionDefinition(f),
                ExternalDeclaration::FunctionDefinition(g),
            ) => {
                assert(function_swizzled(f, g));
                assert(printable_function(f));
                lemma_prototype_stays_printable(f.prototype, g.prototype);
                assert(compound_swizzled(f.statement, g.statement));
                assert(printable_compound(f.statement));
                lemma_statements_stay_printable(
                    f.statement.statement_list,
                    g.statement.statement_list,
                );
                assert(printable_compound(g.statement));
            },
            (ExternalDeclaration::Declaration(x), ExternalDeclaration::Declaration(y)) => {
                lemma_declaration_stays_printable(x, y);
            },
            _ => {},
        }
    }
}

/// An exit statement holds nothing that the printer could stumble over.
pub proof fn lemma_exit_statement_printable(s: Statement, name: Seq<char>)
    requires
        is_exit_swizzle(s, name) || is_return(s),
    ensures
        printable_statement(s),
{
    match s {
        Statement::Simple(x) => {
            assert(printable_simple(*x));
        },
        _ => {},
    }
}

/// The second pass keeps the first statements of a list printable.
pub proof fn lemma_prefix_exits_printable(
    name: Seq<char>,
    a: Seq<Statement>,
    n: int,
    b: Seq<Statement>,
    j: int,
)
    requires
        0 <= n <= a.len(),
        prefix_exits(name, a, n, b),
        forall|i: int| 0 <= i < n ==> printable_statement(#[trigger] a[i]),
        0 <= j < b.len(),
    ensures
        printable_statement(b[j]),
    decreases a, n,
{
    let len = b.len() as int;
    if is_return(a[n - 1]) {
        if j < len - 2 {
            lemma_prefix_exits_printable(name, a, n - 1, b.take(len - 2), j);
        } else if j == len - 2 {
            lemma_exit_statement_printable(b[j], name);
        } else {
            assert(printable_statement(a[n - 1]));
        }
    } else {
        if j < len - 1 {
            lemma_prefix_exits_printable(name, a, n - 1, b.take(len - 1), j);
        } else {
            assert(printable_statement(a[n - 1]));
            lemma_statement_exits_printable(name, a[n - 1], b[len - 1]);
        }
    }
}

/// The second pass keeps a printable statement list printable.
pub proof fn lemma_list_exits_printable(name: Seq<char>, a: Vec<Statement>, b: Vec<Statement>)
    requires
        list_exits(name, a@, b@),
        printable_statements(a),
    ensures
        printable_statements(b),
    decreases a@, a@.len() + 1,
{
    assert forall|j: int| 0 <= j < b@.len() implies printable_statement(#[trigger] b@[j]) by {
        lemma_prefix_exits_printable(name, a@, a@.len() as int, b@, j);
    }
}

/// The second pass keeps a printable statement printable.
pub proof fn lemma_statement_exits_printable(name: Seq<char>, a: Statement, b: Statement)
    requires
        statement_exits(name, a, b),
        printable_statement(a),
    ensures
        printable_statement(b),
    decreases a, 0int,
{
    match (a, b) {
        (Statement::Compound(c), Statement::Compound(d)) => {
            assert(compound_exits(name, *c, *d));
            assert(printable_compound(*c));
            lemma_list_exits_printable(name, c.statement_list, d.statement_list);
            assert(printable_compound(*d));
        },
        (Statement::Simple(x), Statement::Simple(y)) => {
            lemma_simple_exits_printable(name, *x, *y);
        },
        _ => {},
    }
}

/// The second pass keeps a printable statement printable.
pub proof fn lemma_body_exits_printable(name: Seq<char>, a: Statement, b: Statement)
    requires
        body_exits(name, a, b),
        printable_statement(a),
    ensures
        printable_statement(b),
    decreases a, 1int,
{
    if is_return(a) {
        match b {
            Statement::Compound(c) => {
                lemma_exit_statement_printable(c.statement_list@[0], name);
                assert(printable_statements(c.statement_list));
                assert(printable_compound(*c));
            },
            _ => {},
        }
    } else {
        lemma_statement_exits_printable(name, a, b);
    }
}

/// The second pass keeps a printable simple statement printable.
pub proof fn lemma_simple_exits_printable(name: Seq<char>, a: SimpleStatement, b: SimpleStatement)
    requires
        simple_exits(name, a, b),
        printable_simple(a),
    ensures
        printable_simple(b),
    decreases a, 0int,
{
    match (a, b) {
        (SimpleStatement::Selection(x), SimpleStatement::Selection(y)) => {
            assert(selection_exits(name, x, y));
            assert(printable_selection(x));
            match (x.rest, y.rest) {
                (
                    SelectionRestStatement::Statement(t),
                    SelectionRestStatement::Statement(t2),
                ) => {
                    lemma_body_exits_printable(name, *t, *t2);
                },
                (SelectionRestStatement::Else(t, e), SelectionRestStatement::Else(t2, e2)) => {
                    lemma_body_exits_printable(name, *t, *t2);
                    lemma_body_exits_printable(name, *e, *e2);
                },
                _ => {},
            }
            assert(printable_selection(y));
        },
        (SimpleStatement::Switch(x), SimpleStatement::Switch(y)) => {
            assert(switch_exits(name, x, y));
            assert(printable_switch(x));
            lemma_list_exits_printable(name, x.body, y.body);
            assert(printable_switch(y));
        },
        (SimpleStatement::Iteration(x), SimpleStatement::Iteration(y)) => {
            assert(iteration_exits(name, x, y));
            assert(printable_iteration(x));
            match (x, y) {
                (IterationStatement::While(_, s), IterationStatement::While(_, s2)) => {
                    lemma_body_exits_printable(name, *s, *s2);
                },
                (IterationStatement::DoWhile(s, _), IterationStatement::DoWhile(s2, _)) => {
                    lemma_body_exits_printable(name, *s, *s2);
                },
                (IterationStatement::For(_, _, s), IterationStatement::For(_, _, s2)) => {
                    lemma_body_exits_printable(name, *s, *s2);
                },
                _ => {},
            }
            assert(printable_iteration(y));
        },
        _ => {},
    }
}

/// The second pass keeps a printable body of `main` printable.
pub proof fn lemma_entry_point_exits_printable(
    name: Seq<char>,
    a: CompoundStatement,
    b: CompoundStatement,
)
    requires
        entry_point_exits(name, a, b),
        printable_compound(a),
    ensures
        printable_compound(b),
{
    let list = b.statement_list@;
    let len = list.len() as int;
    assert(printable_statements(a.statement_list));
    assert forall|j: int| 0 <= j < len implies printable_statement(#[trigger] list[j]) by {
        if j < len - 1 {
            lemma_prefix_exits_printable(
                name,
                a.statement_list@,
                a.statement_list@.len() as int,
                list.take(len - 1),
                j,
            );
        } else {
            lemma_exit_statement_printable(list[j], name);
        }
    }
    assert(printable_statements(b.statement_list));
}

/// The second pass keeps a printable shader printable.
pub proof fn lemma_exits_stay_printable(a: TranslationUnit, b: TranslationUnit)
    requires
        unit_exits(a, b),
        printable(a),
    ensures
        printable(b),
{
    match (output_variable(a), entry_point(a)) {
        (Some(name), Some(k)) => {
            assert forall|i: int| 0 <= i < b.0.0@.len() implies printable_external(
                #[trigger] b.0.0@[i],
            ) by {
                assert(printable_external(a.0.0@[i]));
                if i == k {
                    match (a.0.0@[k], b.0.0@[k]) {
                        (
                            ExternalDeclaration::FunctionDefinition(f),
                            ExternalDeclaration::FunctionDefinition(g),
                        ) => {
                            assert(printable_function(f));
                            lemma_entry_point_exits_printable(name, f.statement, g.statement);
                        },
                        _ => {},
                    }
                }
            }
        },
        _ => {},
    }
}

/// A printable shader is printable after the rewrite.
pub proof fn lemma_rewritten_stays_printable(a: TranslationUnit, b: TranslationUnit)
    requires
        unit_rewritten(a, b),
        printable(a),
    ensures
        printable(b),
{
    let mid = choose|mid: TranslationUnit| #[trigger] unit_exits(a, mid) && unit_swizzled(mid, b);
    lemma_exits_stay_printable(a, mid);
    lemma_swizzled_stays_printable(mid, b);
}

} // verus!

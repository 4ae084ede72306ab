//! The rewrite of a shader is one tree, up to what is alike: whatever two
//! runs of a pass make of trees that are alike is alike again.

use vstd::prelude::*;
use glsl::syntax::{
    ArrayedIdentifier, ArraySpecifier, ArraySpecifierDimension, Block, CaseLabel,
    CompoundStatement, Condition, Declaration, Expr, ExternalDeclaration, ForInitStatement,
    ForRestStatement, FullySpecifiedType, FunctionDefinition, FunctionParameterDeclaration,
    FunctionParameterDeclarator, FunctionPrototype, InitDeclaratorList, Initializer,
    IterationStatement, JumpStatement, LayoutQualifier, LayoutQualifierSpec,
    SelectionRestStatement, SelectionStatement, SimpleStatement, SingleDeclaration,
    SingleDeclarationNoType, Statement, StructFieldSpecifier, StructSpecifier, SwitchStatement,
    TranslationUnit, TypeQualifier, TypeQualifierSpec, TypeSpecifier, TypeSpecifierNonArray,
};
use crate::alike::{
    arrayed_identifier_alike, block_alike, case_label_alike, compound_alike, condition_alike,
    declaration_alike, external_alike, for_init_alike, for_rest_alike, full_type_alike,
    function_alike, init_list_alike, initializer_alike, iteration_alike, jump_alike,
    layout_alike, layout_spec_alike, non_array_alike, opt_arrayed_identifier_alike,
    opt_condition_alike, opt_initializer_alike, opt_qualifier_alike, parameter_alike,
    parameter_declarator_alike, prototype_alike, qualifier_alike, qualifier_spec_alike,
    selection_alike, selection_rest_alike, simple_alike, single_declaration_alike,
    single_no_type_alike, statement_alike, statements_alike, struct_alike, struct_field_alike,
    switch_alike, type_specifier_alike, unit_alike,
};
use crate::texture_calls::declarations::{
    block_swizzled, declaration_swizzled, init_list_swizzled, initializer_swizzled,
    opt_initializer_swizzled, parameter_declarator_swizzled, parameter_swizzled,
    prototype_swizzled, single_declaration_swizzled, single_no_type_swizzled,
};
use crate::texture_calls::statements::{
    case_label_swizzled, compound_swizzled, condition_swizzled, external_swizzled,
    for_init_swizzled, for_rest_swizzled, function_swizzled, iteration_swizzled, jump_swizzled,
    opt_condition_swizzled, selection_rest_swizzled, selection_swizzled, simple_swizzled,
    statement_swizzled, statements_swizzled, switch_swizzled, unit_swizzled,
};
use crate::texture_calls::type_specs::{
    arrayed_identifier_swizzled, full_type_swizzled, layout_spec_swizzled, layout_swizzled,
    non_array_swizzled, opt_arrayed_identifier_swizzled, opt_qualifier_swizzled,
    qualifier_spec_swizzled, qualifier_swizzled, struct_field_swizzled, struct_swizzled,
    type_specifier_swizzled,
};
use crate::alike::{
    args_alike, array_spec_alike, boxed_expr_alike, dimension_alike, expr_alike,
    opt_array_spec_alike, opt_expr_alike,
};
use crate::channels::{is_sampling_name, is_store_name};
use crate::exit_points::{
    body_exits, entry_point_exits, is_exit_swizzle, is_return, iteration_exits, list_exits,
    prefix_exits, selection_exits, simple_exits, statement_exits, switch_exits,
};
use crate::preprocessing::{entry_point, output_variable, unit_exits, unit_rewritten};
use crate::texture_calls::exprs::{
    args_swizzled, array_spec_swizzled, boxed_expr_swizzled, callee_text, dimension_swizzled,
    expr_swizzled, opt_array_spec_swizzled, opt_expr_swizzled, store_args_swizzled,
};

verus! {

/// The first pass keeps two argument lists alike.
pub proof fn lemma_args_alike(a: Vec<Expr>, a2: Vec<Expr>, b: Vec<Expr>, b2: Vec<Expr>)
    requires
        args_alike(a, a2),
        args_swizzled(a, b),
        args_swizzled(a2, b2),
    ensures
        args_alike(b, b2),
    decreases a, 1int,
{
    assert forall|i: int| 0 <= i < b@.len() implies expr_alike(b@[i], #[trigger] b2@[i]) by {
        assert(expr_alike(a@[i], a2@[i]));
        lemma_expr_alike(a@[i], a2@[i], b@[i], b2@[i]);
    }
}

/// The first pass keeps two argument lists alike.
pub proof fn lemma_store_args_alike(a: Vec<Expr>, a2: Vec<Expr>, b: Vec<Expr>, b2: Vec<Expr>)
    requires
        args_alike(a, a2),
        store_args_swizzled(a, b),
        store_args_swizzled(a2, b2),
    ensures
        args_alike(b, b2),
    decreases a, 1int,
{
    let n = a@.len() as int;
    assert forall|i: int| 0 <= i < b@.len() implies expr_alike(b@[i], #[trigger] b2@[i]) by {
        assert(expr_alike(a@[i], a2@[i]));
        if i < n - 1 {
            lemma_expr_alike(a@[i], a2@[i], b@[i], b2@[i]);
        } else {
            match (b@[i], b2@[i]) {
                (Expr::Dot(v, _), Expr::Dot(v2, _)) => {
                    lemma_expr_alike(a@[i], a2@[i], *v, *v2);
                },
                _ => {},
            }
        }
    }
}

/// The first pass keeps two expressions alike.
pub proof fn lemma_expr_alike(a: Expr, a2: Expr, b: Expr, b2: Expr)
    requires
        expr_alike(a, a2),
        expr_swizzled(a, b),
        expr_swizzled(a2, b2),
    ensures
        expr_alike(b, b2),
    decreases a, 0int,
{
    match (a, a2) {
        (Expr::FunCall(id, args), Expr::FunCall(id2, args2)) => {
            assert(id2 == id);
            assert(args_alike(args, args2));
            if is_sampling_name(callee_text(id)) {
                match (b, b2) {
                    (Expr::Dot(c, _), Expr::Dot(c2, _)) => {
                        match (*c, *c2) {
                            (Expr::FunCall(_, x), Expr::FunCall(_, x2)) => {
                                assert(args_swizzled(args, x));
                                assert(args_swizzled(args2, x2));
                                lemma_args_alike(args, args2, x, x2);
                                assert(expr_alike(*c, *c2));
                            },
                            _ => {},
                        }
                    },
                    _ => {},
                }
            } else if is_store_name(callee_text(id)) {
                match (b, b2) {
                    (Expr::FunCall(_, x), Expr::FunCall(_, x2)) => {
                        assert(store_args_swizzled(args, x));
                        assert(store_args_swizzled(args2, x2));
                        lemma_store_args_alike(args, args2, x, x2);
                    },
                    _ => {},
                }
            } else {
                match (b, b2) {
                    (Expr::FunCall(_, x), Expr::FunCall(_, x2)) => {
                        assert(args_swizzled(args, x));
                        assert(args_swizzled(args2, x2));
                        lemma_args_alike(args, args2, x, x2);
                    },
                    _ => {},
                }
            }
        },
        (Expr::Unary(_, e), Expr::Unary(_, e2)) => {
            match (b, b2) {
                (Expr::Unary(_, f), Expr::Unary(_, f2)) => {
                    lemma_expr_alike(*e, *e2, *f, *f2);
                },
                _ => {},
            }
        },
        (Expr::Binary(_, l, r), Expr::Binary(_, l2, r2)) => {
            match (b, b2) {
                (Expr::Binary(_, m, s), Expr::Binary(_, m2, s2)) => {
                    lemma_expr_alike(*l, *l2, *m, *m2);
                    lemma_expr_alike(*r, *r2, *s, *s2);
                },
                _ => {},
            }
        },
        (Expr::Ternary(c, t, f), Expr::Ternary(c2, t2, f2)) => {
            match (b, b2) {
                (Expr::Ternary(x, y, z), Expr::Ternary(x2, y2, z2)) => {
                    lemma_expr_alike(*c, *c2, *x, *x2);
                    lemma_expr_alike(*t, *t2, *y, *y2);
                    lemma_expr_alike(*f, *f2, *z, *z2);
                },
                _ => {},
            }
        },
        (Expr::Assignment(l, _, r), Expr::Assignment(l2, _, r2)) => {
            match (b, b2) {
                (Expr::Assignment(m, _, s), Expr::Assignment(m2, _, s2)) => {
                    lemma_expr_alike(*l, *l2, *m, *m2);
                    lemma_expr_alike(*r, *r2, *s, *s2);
                },
                _ => {},
            }
        },
        (Expr::Bracket(e, spec), Expr::Bracket(e2, spec2)) => {
            match (b, b2) {
                (Expr::Bracket(f, t), Expr::Bracket(f2, t2)) => {
                    lemma_expr_alike(*e, *e2, *f, *f2);
                    assert(array_spec_alike(spec, spec2));
                    lemma_array_spec_alike(spec, spec2, t, t2);
                },
                _ => {},
            }
        },
        (Expr::Dot(e, _), Expr::Dot(e2, _)) => {
            match (b, b2) {
                (Expr::Dot(f, _), Expr::Dot(f2, _)) => {
                    lemma_expr_alike(*e, *e2, *f, *f2);
                },
                _ => {},
            }
        },
        (Expr::PostInc(e), Expr::PostInc(e2)) => {
            match (b, b2) {
                (Expr::PostInc(f), Expr::PostInc(f2)) => {
                    lemma_expr_alike(*e, *e2, *f, *f2);
                },
                _ => {},
            }
        },
        (Expr::PostDec(e), Expr::PostDec(e2)) => {
            match (b, b2) {
                (Expr::PostDec(f), Expr::PostDec(f2)) => {
                    lemma_expr_alike(*e, *e2, *f, *f2);
                },
                _ => {},
            }
        },
        (Expr::Comma(l, r), Expr::Comma(l2, r2)) => {
            match (b, b2) {
                (Expr::Comma(m, s), Expr::Comma(m2, s2)) => {
                    lemma_expr_alike(*l, *l2, *m, *m2);
                    lemma_expr_alike(*r, *r2, *s, *s2);
                },
                _ => {},
            }
        },
        _ => {},
    }
}

/// The first pass keeps two optional expressions alike.
pub proof fn lemma_boxed_expr_alike(
    a: Option<Box<Expr>>,
    a2: Option<Box<Expr>>,
    b: Option<Box<Expr>>,
    b2: Option<Box<Expr>>,
)
    requires
        boxed_expr_alike(a, a2),
        boxed_expr_swizzled(a, b),
        boxed_expr_swizzled(a2, b2),
    ensures
        boxed_expr_alike(b, b2),
{
    match (a, a2, b, b2) {
        (Some(x), Some(x2), Some(y), Some(y2)) => lemma_expr_alike(*x, *x2, *y, *y2),
        _ => {},
    }
}

/// The first pass keeps two optional expressions alike.
pub proof fn lemma_opt_expr_alike(
    a: Option<Expr>,
    a2: Option<Expr>,
    b: Option<Expr>,
    b2: Option<Expr>,
)
    requires
        opt_expr_alike(a, a2),
        opt_expr_swizzled(a, b),
        opt_expr_swizzled(a2, b2),
    ensures
        opt_expr_alike(b, b2),
{
    match (a, a2, b, b2) {
        (Some(x), Some(x2), Some(y), Some(y2)) => lemma_expr_alike(x, x2, y, y2),
        _ => {},
    }
}

/// The first pass keeps two array sizes alike.
pub proof fn lemma_dimension_alike(
    a: ArraySpecifierDimension,
    a2: ArraySpecifierDimension,
    b: ArraySpecifierDimension,
    b2: ArraySpecifierDimension,
)
    requires
        dimension_alike(a, a2),
        dimension_swizzled(a, b),
        dimension_swizzled(a2, b2),
    ensures
        dimension_alike(b, b2),
    decreases a, 0int,
{
    match (a, a2, b, b2) {
        (
            ArraySpecifierDimension::ExplicitlySized(x),
            ArraySpecifierDimension::ExplicitlySized(x2),
            ArraySpecifierDimension::ExplicitlySized(y),
            ArraySpecifierDimension::ExplicitlySized(y2),
        ) => lemma_expr_alike(*x, *x2, *y, *y2),
        _ => {},
    }
}

/// The first pass keeps two array specifiers alike.
pub proof fn lemma_array_spec_alike(
    a: ArraySpecifier,
    a2: ArraySpecifier,
    b: ArraySpecifier,
    b2: ArraySpecifier,
)
    requires
        array_spec_alike(a, a2),
        array_spec_swizzled(a, b),
        array_spec_swizzled(a2, b2),
    ensures
        array_spec_alike(b, b2),
    decreases a, 1int,
{
    assert forall|i: int| 0 <= i < b.dimensions.0@.len() implies dimension_alike(
        b.dimensions.0@[i],
        #[trigger] b2.dimensions.0@[i],
    ) by {
        assert(dimension_alike(a.dimensions.0@[i], a2.dimensions.0@[i]));
        lemma_dimension_alike(
            a.dimensions.0@[i],
            a2.dimensions.0@[i],
            b.dimensions.0@[i],
            b2.dimensions.0@[i],
        );
    }
}

/// The first pass keeps two optional array specifiers alike.
pub proof fn lemma_opt_array_spec_alike(
    a: Option<ArraySpecifier>,
    a2: Option<ArraySpecifier>,
    b: Option<ArraySpecifier>,
    b2: Option<ArraySpecifier>,
)
    requires
        opt_array_spec_alike(a, a2),
        opt_array_spec_swizzled(a, b),
        opt_array_spec_swizzled(a2, b2),
    ensures
        opt_array_spec_alike(b, b2),
{
    match (a, a2, b, b2) {
        (Some(x), Some(x2), Some(y), Some(y2)) => lemma_array_spec_alike(x, x2, y, y2),
        _ => {},
    }
}

/// The first pass keeps two layout arguments alike.
pub proof fn lemma_layout_spec_alike(a: LayoutQualifierSpec, a2: LayoutQualifierSpec, b: LayoutQualifierSpec, b2: LayoutQualifierSpec)
    requires
        layout_spec_alike(a, a2),
        layout_spec_swizzled(a, b),
        layout_spec_swizzled(a2, b2),
    ensures
        layout_spec_alike(b, b2),
{
    match (a, a2, b, b2) {
        (
            LayoutQualifierSpec::Identifier(_, x),
            LayoutQualifierSpec::Identifier(_, x2),
            LayoutQualifierSpec::Identifier(_, y),
            LayoutQualifierSpec::Identifier(_, y2),
        ) => lemma_boxed_expr_alike(x, x2, y, y2),
        _ => {},
    }
}

/// The first pass keeps two layout qualifiers alike.
pub proof fn lemma_layout_alike(a: LayoutQualifier, a2: LayoutQualifier, b: LayoutQualifier, b2: LayoutQualifier)
    requires
        layout_alike(a, a2),
        layout_swizzled(a, b),
        layout_swizzled(a2, b2),
    ensures
        layout_alike(b, b2),
{
    assert forall|i: int| 0 <= i < b.ids.0@.len() implies layout_spec_alike(
        b.ids.0@[i],
        #[trigger] b2.ids.0@[i],
    ) by {
        assert(layout_spec_alike(a.ids.0@[i], a2.ids.0@[i]));
        lemma_layout_spec_alike(a.ids.0@[i], a2.ids.0@[i], b.ids.0@[i], b2.ids.0@[i]);
    }
}

/// The first pass keeps two qualifiers alike.
pub proof fn lemma_qualifier_spec_alike(a: TypeQualifierSpec, a2: TypeQualifierSpec, b: TypeQualifierSpec, b2: TypeQualifierSpec)
    requires
        qualifier_spec_alike(a, a2),
        qualifier_spec_swizzled(a, b),
        qualifier_spec_swizzled(a2, b2),
    ensures
        qualifier_spec_alike(b, b2),
{
    match (a, a2, b, b2) {
        (
            TypeQualifierSpec::Layout(x),
            TypeQualifierSpec::Layout(x2),
            TypeQualifierSpec::Layout(y),
            TypeQualifierSpec::Layout(y2),
        ) => lemma_layout_alike(x, x2, y, y2),
        _ => {},
    }
}

/// The first pass keeps two lists of qualifiers alike.
pub proof fn lemma_qualifier_alike(a: TypeQualifier, a2: TypeQualifier, b: TypeQualifier, b2: TypeQualifier)
    requires
        qualifier_alike(a, a2),
        qualifier_swizzled(a, b),
        qualifier_swizzled(a2, b2),
    ensures
        qualifier_alike(b, b2),
{
    assert forall|i: int| 0 <= i < b.qualifiers.0@.len() implies qualifier_spec_alike(
        b.qualifiers.0@[i],
        #[trigger] b2.qualifiers.0@[i],
    ) by {
        assert(qualifier_spec_alike(a.qualifiers.0@[i], a2.qualifiers.0@[i]));
        lemma_qualifier_spec_alike(a.qualifiers.0@[i], a2.qualifiers.0@[i], b.qualifiers.0@[i], b2.qualifiers.0@[i]);
    }
}

/// The first pass keeps two optional list of qualifierss alike.
pub proof fn lemma_opt_qualifier_alike(a: Option<TypeQualifier>, a2: Option<TypeQualifier>, b: Option<TypeQualifier>, b2: Option<TypeQualifier>)
    requires
        opt_qualifier_alike(a, a2),
        opt_qualifier_swizzled(a, b),
        opt_qualifier_swizzled(a2, b2),
    ensures
        opt_qualifier_alike(b, b2),
{
    match (a, a2, b, b2) {
        (Some(x), Some(x2), Some(y), Some(y2)) => lemma_qualifier_alike(x, x2, y, y2),
        _ => {},
    }
}

/// The first pass keeps two declared names alike.
pub proof fn lemma_arrayed_identifier_alike(a: ArrayedIdentifier, a2: ArrayedIdentifier, b: ArrayedIdentifier, b2: ArrayedIdentifier)
    requires
        arrayed_identifier_alike(a, a2),
        arrayed_identifier_swizzled(a, b),
        arrayed_identifier_swizzled(a2, b2),
    ensures
        arrayed_identifier_alike(b, b2),
{
    lemma_opt_array_spec_alike(a.array_spec, a2.array_spec, b.array_spec, b2.array_spec);
}

/// The first pass keeps two optional declared names alike.
pub proof fn lemma_opt_arrayed_identifier_alike(a: Option<ArrayedIdentifier>, a2: Option<ArrayedIdentifier>, b: Option<ArrayedIdentifier>, b2: Option<ArrayedIdentifier>)
    requires
        opt_arrayed_identifier_alike(a, a2),
        opt_arrayed_identifier_swizzled(a, b),
        opt_arrayed_identifier_swizzled(a2, b2),
    ensures
        opt_arrayed_identifier_alike(b, b2),
{
    match (a, a2, b, b2) {
        (Some(x), Some(x2), Some(y), Some(y2)) => lemma_arrayed_identifier_alike(x, x2, y, y2),
        _ => {},
    }
}

/// The first pass keeps two types alike.
pub proof fn lemma_type_specifier_alike(a: TypeSpecifier, a2: TypeSpecifier, b: TypeSpecifier, b2: TypeSpecifier)
    requires
        type_specifier_alike(a, a2),
        type_specifier_swizzled(a, b),
        type_specifier_swizzled(a2, b2),
    ensures
        type_specifier_alike(b, b2),
    decreases a, 2int,
{
    lemma_non_array_alike(a.ty, a2.ty, b.ty, b2.ty);
    lemma_opt_array_spec_alike(
        a.array_specifier,
        a2.array_specifier,
        b.array_specifier,
        b2.array_specifier,
    );
}

/// The first pass keeps two element types alike.
pub proof fn lemma_non_array_alike(a: TypeSpecifierNonArray, a2: TypeSpecifierNonArray, b: TypeSpecifierNonArray, b2: TypeSpecifierNonArray)
    requires
        non_array_alike(a, a2),
        non_array_swizzled(a, b),
        non_array_swizzled(a2, b2),
    ensures
        non_array_alike(b, b2),
    decreases a, 1int,
{
    match (a, a2, b, b2) {
        (
            TypeSpecifierNonArray::Struct(x),
            TypeSpecifierNonArray::Struct(x2),
            TypeSpecifierNonArray::Struct(y),
            TypeSpecifierNonArray::Struct(y2),
        ) => lemma_struct_alike(x, x2, y, y2),
        _ => {},
    }
}

/// The first pass keeps two structs alike.
pub proof fn lemma_struct_alike(a: StructSpecifier, a2: StructSpecifier, b: StructSpecifier, b2: StructSpecifier)
    requires
        struct_alike(a, a2),
        struct_swizzled(a, b),
        struct_swizzled(a2, b2),
    ensures
        struct_alike(b, b2),
    decreases a, 1int,
{
    assert forall|i: int| 0 <= i < b.fields.0@.len() implies struct_field_alike(
        b.fields.0@[i],
        #[trigger] b2.fields.0@[i],
    ) by {
        assert(struct_field_alike(a.fields.0@[i], a2.fields.0@[i]));
        lemma_struct_field_alike(a.fields.0@[i], a2.fields.0@[i], b.fields.0@[i], b2.fields.0@[i]);
    }
}

/// The first pass keeps two struct fields alike.
pub proof fn lemma_struct_field_alike(a: StructFieldSpecifier, a2: StructFieldSpecifier, b: StructFieldSpecifier, b2: StructFieldSpecifier)
    requires
        struct_field_alike(a, a2),
        struct_field_swizzled(a, b),
        struct_field_swizzled(a2, b2),
    ensures
        struct_field_alike(b, b2),
    decreases a, 0int,
{
    lemma_opt_qualifier_alike(a.qualifier, a2.qualifier, b.qualifier, b2.qualifier);
    lemma_type_specifier_alike(a.ty, a2.ty, b.ty, b2.ty);
    assert forall|i: int| 0 <= i < b.identifiers.0@.len() implies arrayed_identifier_alike(
        b.identifiers.0@[i],
        #[trigger] b2.identifiers.0@[i],
    ) by {
        assert(arrayed_identifier_alike(a.identifiers.0@[i], a2.identifiers.0@[i]));
        lemma_arrayed_identifier_alike(a.identifiers.0@[i], a2.identifiers.0@[i], b.identifiers.0@[i], b2.identifiers.0@[i]);
    }
}

/// The first pass keeps two qualified types alike.
pub proof fn lemma_full_type_alike(a: FullySpecifiedType, a2: FullySpecifiedType, b: FullySpecifiedType, b2: FullySpecifiedType)
    requires
        full_type_alike(a, a2),
        full_type_swizzled(a, b),
        full_type_swizzled(a2, b2),
    ensures
        full_type_alike(b, b2),
{
    lemma_opt_qualifier_alike(a.qualifier, a2.qualifier, b.qualifier, b2.qualifier);
    lemma_type_specifier_alike(a.ty, a2.ty, b.ty, b2.ty);
}

/// The first pass keeps two initializers alike.
pub proof fn lemma_initializer_alike(a: Initializer, a2: Initializer, b: Initializer, b2: Initializer)
    requires
        initializer_alike(a, a2),
        initializer_swizzled(a, b),
        initializer_swizzled(a2, b2),
    ensures
        initializer_alike(b, b2),
    decreases a, 0int,
{
    match (a, a2, b, b2) {
        (
            Initializer::Simple(x),
            Initializer::Simple(x2),
            Initializer::Simple(y),
            Initializer::Simple(y2),
        ) => lemma_expr_alike(*x, *x2, *y, *y2),
        (Initializer::List(x), Initializer::List(x2), Initializer::List(y), Initializer::List(y2)) => {
            assert forall|i: int| 0 <= i < y.0@.len() implies initializer_alike(
                y.0@[i],
                #[trigger] y2.0@[i],
            ) by {
                assert(initializer_alike(x.0@[i], x2.0@[i]));
                lemma_initializer_alike(x.0@[i], x2.0@[i], y.0@[i], y2.0@[i]);
            }
        },
        _ => {},
    }
}

/// The first pass keeps two optional initializers alike.
pub proof fn lemma_opt_initializer_alike(a: Option<Initializer>, a2: Option<Initializer>, b: Option<Initializer>, b2: Option<Initializer>)
    requires
        opt_initializer_alike(a, a2),
        opt_initializer_swizzled(a, b),
        opt_initializer_swizzled(a2, b2),
    ensures
        opt_initializer_alike(b, b2),
{
    match (a, a2, b, b2) {
        (Some(x), Some(x2), Some(y), Some(y2)) => lemma_initializer_alike(x, x2, y, y2),
        _ => {},
    }
}

/// The first pass keeps two first declarators alike.
pub proof fn lemma_single_declaration_alike(a: SingleDeclaration, a2: SingleDeclaration, b: SingleDeclaration, b2: SingleDeclaration)
    requires
        single_declaration_alike(a, a2),
        single_declaration_swizzled(a, b),
        single_declaration_swizzled(a2, b2),
    ensures
        single_declaration_alike(b, b2),
{
    lemma_full_type_alike(a.ty, a2.ty, b.ty, b2.ty);
    lemma_opt_array_spec_alike(
        a.array_specifier,
        a2.array_specifier,
        b.array_specifier,
        b2.array_specifier,
    );
    lemma_opt_initializer_alike(a.initializer, a2.initializer, b.initializer, b2.initializer);
}

/// The first pass keeps two further declarators alike.
pub proof fn lemma_single_no_type_alike(a: SingleDeclarationNoType, a2: SingleDeclarationNoType, b: SingleDeclarationNoType, b2: SingleDeclarationNoType)
    requires
        single_no_type_alike(a, a2),
        single_no_type_swizzled(a, b),
        single_no_type_swizzled(a2, b2),
    ensures
        single_no_type_alike(b, b2),
{
    lemma_arrayed_identifier_alike(a.ident, a2.ident, b.ident, b2.ident);
    lemma_opt_initializer_alike(a.initializer, a2.initializer, b.initializer, b2.initializer);
}

/// The first pass keeps two variable declarations alike.
pub proof fn lemma_init_list_alike(a: InitDeclaratorList, a2: InitDeclaratorList, b: InitDeclaratorList, b2: InitDeclaratorList)
    requires
        init_list_alike(a, a2),
        init_list_swizzled(a, b),
        init_list_swizzled(a2, b2),
    ensures
        init_list_alike(b, b2),
{
    lemma_single_declaration_alike(a.head, a2.head, b.head, b2.head);
    assert forall|i: int| 0 <= i < b.tail@.len() implies single_no_type_alike(
        b.tail@[i],
        #[trigger] b2.tail@[i],
    ) by {
        assert(single_no_type_alike(a.tail@[i], a2.tail@[i]));
        lemma_single_no_type_alike(a.tail@[i], a2.tail@[i], b.tail@[i], b2.tail@[i]);
    }
}

/// The first pass keeps two named parameters alike.
pub proof fn lemma_parameter_declarator_alike(a: FunctionParameterDeclarator, a2: FunctionParameterDeclarator, b: FunctionParameterDeclarator, b2: FunctionParameterDeclarator)
    requires
        parameter_declarator_alike(a, a2),
        parameter_declarator_swizzled(a, b),
        parameter_declarator_swizzled(a2, b2),
    ensures
        parameter_declarator_alike(b, b2),
{
    lemma_type_specifier_alike(a.ty, a2.ty, b.ty, b2.ty);
    lemma_arrayed_identifier_alike(a.ident, a2.ident, b.ident, b2.ident);
}

/// The first pass keeps two parameters alike.
pub proof fn lemma_parameter_alike(a: FunctionParameterDeclaration, a2: FunctionParameterDeclaration, b: FunctionParameterDeclaration, b2: FunctionParameterDeclaration)
    requires
        parameter_alike(a, a2),
        parameter_swizzled(a, b),
        parameter_swizzled(a2, b2),
    ensures
        parameter_alike(b, b2),
{
    match (a, a2, b, b2) {
        (
            FunctionParameterDeclaration::Named(q, d),
            FunctionParameterDeclaration::Named(q2, d2),
            FunctionParameterDeclaration::Named(r, e),
            FunctionParameterDeclaration::Named(r2, e2),
        ) => {
            lemma_opt_qualifier_alike(q, q2, r, r2);
            lemma_parameter_declarator_alike(d, d2, e, e2);
        },
        (
            FunctionParameterDeclaration::Unnamed(q, d),
            FunctionParameterDeclaration::Unnamed(q2, d2),
            FunctionParameterDeclaration::Unnamed(r, e),
            FunctionParameterDeclaration::Unnamed(r2, e2),
        ) => {
            lemma_opt_qualifier_alike(q, q2, r, r2);
            lemma_type_specifier_alike(d, d2, e, e2);
        },
        _ => {},
    }
}

/// The first pass keeps two function prototypes alike.
pub proof fn lemma_prototype_alike(a: FunctionPrototype, a2: FunctionPrototype, b: FunctionPrototype, b2: FunctionPrototype)
    requires
        prototype_alike(a, a2),
        prototype_swizzled(a, b),
        prototype_swizzled(a2, b2),
    ensures
        prototype_alike(b, b2),
{
    lemma_full_type_alike(a.ty, a2.ty, b.ty, b2.ty);
    assert forall|i: int| 0 <= i < b.parameters@.len() implies parameter_alike(
        b.parameters@[i],
        #[trigger] b2.parameters@[i],
    ) by {
        assert(parameter_alike(a.parameters@[i], a2.parameters@[i]));
        lemma_parameter_alike(a.parameters@[i], a2.parameters@[i], b.parameters@[i], b2.parameters@[i]);
    }
}

/// The first pass keeps two interface blocks alike.
pub proof fn lemma_block_alike(a: Block, a2: Block, b: Block, b2: Block)
    requires
        block_alike(a, a2),
        block_swizzled(a, b),
        block_swizzled(a2, b2),
    ensures
        block_alike(b, b2),
{
    lemma_qualifier_alike(a.qualifier, a2.qualifier, b.qualifier, b2.qualifier);
    lemma_opt_arrayed_identifier_alike(a.identifier, a2.identifier, b.identifier, b2.identifier);
    assert forall|i: int| 0 <= i < b.fields@.len() implies struct_field_alike(
        b.fields@[i],
        #[trigger] b2.fields@[i],
    ) by {
        assert(struct_field_alike(a.fields@[i], a2.fields@[i]));
        lemma_struct_field_alike(a.fields@[i], a2.fields@[i], b.fields@[i], b2.fields@[i]);
    }
}

/// The first pass keeps two declarations alike.
pub proof fn lemma_declaration_alike(a: Declaration, a2: Declaration, b: Declaration, b2: Declaration)
    requires
        declaration_alike(a, a2),
        declaration_swizzled(a, b),
        declaration_swizzled(a2, b2),
    ensures
        declaration_alike(b, b2),
{
    match (a, a2, b, b2) {
        (
            Declaration::FunctionPrototype(x),
            Declaration::FunctionPrototype(x2),
            Declaration::FunctionPrototype(y),
            Declaration::FunctionPrototype(y2),
        ) => lemma_prototype_alike(x, x2, y, y2),
        (
            Declaration::InitDeclaratorList(x),
            Declaration::InitDeclaratorList(x2),
            Declaration::InitDeclaratorList(y),
            Declaration::InitDeclaratorList(y2),
        ) => lemma_init_list_alike(x, x2, y, y2),
        (
            Declaration::Precision(_, x),
            Declaration::Precision(_, x2),
            Declaration::Precision(_, y),
            Declaration::Precision(_, y2),
        ) => lemma_type_specifier_alike(x, x2, y, y2),
        (
            Declaration::Block(x),
            Declaration::Block(x2),
            Declaration::Block(y),
            Declaration::Block(y2),
        ) => lemma_block_alike(x, x2, y, y2),
        (
            Declaration::Global(x, _),
            Declaration::Global(x2, _),
            Declaration::Global(y, _),
            Declaration::Global(y2, _),
        ) => lemma_qualifier_alike(x, x2, y, y2),
        _ => {},
    }
}

/// The first pass keeps two loop conditions alike.
pub proof fn lemma_condition_alike(a: Condition, a2: Condition, b: Condition, b2: Condition)
    requires
        condition_alike(a, a2),
        condition_swizzled(a, b),
        condition_swizzled(a2, b2),
    ensures
        condition_alike(b, b2),
{
    match (a, a2, b, b2) {
        (Condition::Expr(x), Condition::Expr(x2), Condition::Expr(y), Condition::Expr(y2)) => {
            lemma_expr_alike(*x, *x2, *y, *y2);
        },
        (
            Condition::Assignment(t, _, i),
            Condition::Assignment(t2, _, i2),
            Condition::Assignment(u, _, j),
            Condition::Assignment(u2, _, j2),
        ) => {
            lemma_full_type_alike(t, t2, u, u2);
            lemma_initializer_alike(i, i2, j, j2);
        },
        _ => {},
    }
}

/// The first pass keeps two optional loop conditions alike.
pub proof fn lemma_opt_condition_alike(a: Option<Condition>, a2: Option<Condition>, b: Option<Condition>, b2: Option<Condition>)
    requires
        opt_condition_alike(a, a2),
        opt_condition_swizzled(a, b),
        opt_condition_swizzled(a2, b2),
    ensures
        opt_condition_alike(b, b2),
{
    match (a, a2, b, b2) {
        (Some(x), Some(x2), Some(y), Some(y2)) => lemma_condition_alike(x, x2, y, y2),
        _ => {},
    }
}

/// The first pass keeps two first clauses of a `for` alike.
pub proof fn lemma_for_init_alike(a: ForInitStatement, a2: ForInitStatement, b: ForInitStatement, b2: ForInitStatement)
    requires
        for_init_alike(a, a2),
        for_init_swizzled(a, b),
        for_init_swizzled(a2, b2),
    ensures
        for_init_alike(b, b2),
{
    match (a, a2, b, b2) {
        (
            ForInitStatement::Expression(x),
            ForInitStatement::Expression(x2),
            ForInitStatement::Expression(y),
            ForInitStatement::Expression(y2),
        ) => lemma_opt_expr_alike(x, x2, y, y2),
        (
            ForInitStatement::Declaration(x),
            ForInitStatement::Declaration(x2),
            ForInitStatement::Declaration(y),
            ForInitStatement::Declaration(y2),
        ) => lemma_declaration_alike(*x, *x2, *y, *y2),
        _ => {},
    }
}

/// The first pass keeps two second and third clauses of a `for` alike.
pub proof fn lemma_for_rest_alike(a: ForRestStatement, a2: ForRestStatement, b: ForRestStatement, b2: ForRestStatement)
    requires
        for_rest_alike(a, a2),
        for_rest_swizzled(a, b),
        for_rest_swizzled(a2, b2),
    ensures
        for_rest_alike(b, b2),
{
    lemma_opt_condition_alike(a.condition, a2.condition, b.condition, b2.condition);
    lemma_boxed_expr_alike(a.post_expr, a2.post_expr, b.post_expr, b2.post_expr);
}

/// The first pass keeps two case labels alike.
pub proof fn lemma_case_label_alike(a: CaseLabel, a2: CaseLabel, b: CaseLabel, b2: CaseLabel)
    requires
        case_label_alike(a, a2),
        case_label_swizzled(a, b),
        case_label_swizzled(a2, b2),
    ensures
        case_label_alike(b, b2),
{
    match (a, a2, b, b2) {
        (CaseLabel::Case(x), CaseLabel::Case(x2), CaseLabel::Case(y), CaseLabel::Case(y2)) => {
            lemma_expr_alike(*x, *x2, *y, *y2);
        },
        _ => {},
    }
}

/// The first pass keeps two jumps alike.
pub proof fn lemma_jump_alike(a: JumpStatement, a2: JumpStatement, b: JumpStatement, b2: JumpStatement)
    requires
        jump_alike(a, a2),
        jump_swizzled(a, b),
        jump_swizzled(a2, b2),
    ensures
        jump_alike(b, b2),
{
    match (a, a2, b, b2) {
        (
            JumpStatement::Return(x),
            JumpStatement::Return(x2),
            JumpStatement::Return(y),
            JumpStatement::Return(y2),
        ) => lemma_boxed_expr_alike(x, x2, y, y2),
        _ => {},
    }
}

/// The first pass keeps two statement lists alike.
pub proof fn lemma_statements_alike(a: Vec<Statement>, a2: Vec<Statement>, b: Vec<Statement>, b2: Vec<Statement>)
    requires
        statements_alike(a, a2),
        statements_swizzled(a, b),
        statements_swizzled(a2, b2),
    ensures
        statements_alike(b, b2),
    decreases a, 1int,
{
    assert forall|i: int| 0 <= i < b@.len() implies statement_alike(
        b@[i],
        #[trigger] b2@[i],
    ) by {
        assert(statement_alike(a@[i], a2@[i]));
        lemma_statement_alike(a@[i], a2@[i], b@[i], b2@[i]);
    }
}

/// The first pass keeps two statements alike.
pub proof fn lemma_statement_alike(a: Statement, a2: Statement, b: Statement, b2: Statement)
    requires
        statement_alike(a, a2),
        statement_swizzled(a, b),
        statement_swizzled(a2, b2),
    ensures
        statement_alike(b, b2),
    decreases a, 0int,
{
    match (a, a2, b, b2) {
        (
            Statement::Compound(x),
            Statement::Compound(x2),
            Statement::Compound(y),
            Statement::Compound(y2),
        ) => lemma_compound_alike(*x, *x2, *y, *y2),
        (Statement::Simple(x), Statement::Simple(x2), Statement::Simple(y), Statement::Simple(y2)) => {
            lemma_simple_alike(*x, *x2, *y, *y2);
        },
        _ => {},
    }
}

/// The first pass keeps two blocks alike.
pub proof fn lemma_compound_alike(a: CompoundStatement, a2: CompoundStatement, b: CompoundStatement, b2: CompoundStatement)
    requires
        compound_alike(a, a2),
        compound_swizzled(a, b),
        compound_swizzled(a2, b2),
    ensures
        compound_alike(b, b2),
    decreases a, 2int,
{
    lemma_statements_alike(a.statement_list, a2.statement_list, b.statement_list, b2.statement_list);
}

/// The first pass keeps two simple statements alike.
pub proof fn lemma_simple_alike(a: SimpleStatement, a2: SimpleStatement, b: SimpleStatement, b2: SimpleStatement)
    requires
        simple_alike(a, a2),
        simple_swizzled(a, b),
        simple_swizzled(a2, b2),
    ensures
        simple_alike(b, b2),
    decreases a, 0int,
{
    match (a, a2, b, b2) {
        (
            SimpleStatement::Declaration(x),
            SimpleStatement::Declaration(x2),
            SimpleStatement::Declaration(y),
            SimpleStatement::Declaration(y2),
        ) => lemma_declaration_alike(x, x2, y, y2),
        (
            SimpleStatement::Expression(x),
            SimpleStatement::Expression(x2),
            SimpleStatement::Expression(y),
            SimpleStatement::Expression(y2),
        ) => lemma_opt_expr_alike(x, x2, y, y2),
        (
            SimpleStatement::Selection(x),
            SimpleStatement::Selection(x2),
            SimpleStatement::Selection(y),
            SimpleStatement::Selection(y2),
        ) => lemma_selection_alike(x, x2, y, y2),
        (
            SimpleStatement::Switch(x),
            SimpleStatement::Switch(x2),
            SimpleStatement::Switch(y),
            SimpleStatement::Switch(y2),
        ) => lemma_switch_alike(x, x2, y, y2),
        (
            SimpleStatement::CaseLabel(x),
            SimpleStatement::CaseLabel(x2),
            SimpleStatement::CaseLabel(y),
            SimpleStatement::CaseLabel(y2),
        ) => lemma_case_label_alike(x, x2, y, y2),
        (
            SimpleStatement::Iteration(x),
            SimpleStatement::Iteration(x2),
            SimpleStatement::Iteration(y),
            SimpleStatement::Iteration(y2),
        ) => lemma_iteration_alike(x, x2, y, y2),
        (
            SimpleStatement::Jump(x),
            SimpleStatement::Jump(x2),
            SimpleStatement::Jump(y),
            SimpleStatement::Jump(y2),
        ) => lemma_jump_alike(x, x2, y, y2),
        _ => {},
    }
}

/// The first pass keeps two `if` statements alike.
pub proof fn lemma_selection_alike(a: SelectionStatement, a2: SelectionStatement, b: SelectionStatement, b2: SelectionStatement)
    requires
        selection_alike(a, a2),
        selection_swizzled(a, b),
        selection_swizzled(a2, b2),
    ensures
        selection_alike(b, b2),
    decreases a, 1int,
{
    lemma_expr_alike(*a.cond, *a2.cond, *b.cond, *b2.cond);
    lemma_selection_rest_alike(a.rest, a2.rest, b.rest, b2.rest);
}

/// The first pass keeps two pairs of branches of an `if` alike.
pub proof fn lemma_selection_rest_alike(a: SelectionRestStatement, a2: SelectionRestStatement, b: SelectionRestStatement, b2: SelectionRestStatement)
    requires
        selection_rest_alike(a, a2),
        selection_rest_swizzled(a, b),
        selection_rest_swizzled(a2, b2),
    ensures
        selection_rest_alike(b, b2),
    decreases a, 0int,
{
    match (a, a2, b, b2) {
        (
            SelectionRestStatement::Statement(x),
            SelectionRestStatement::Statement(x2),
            SelectionRestStatement::Statement(y),
            SelectionRestStatement::Statement(y2),
        ) => lemma_statement_alike(*x, *x2, *y, *y2),
        (
            SelectionRestStatement::Else(x, e),
            SelectionRestStatement::Else(x2, e2),
            SelectionRestStatement::Else(y, f),
            SelectionRestStatement::Else(y2, f2),
        ) => {
            lemma_statement_alike(*x, *x2, *y, *y2);
            lemma_statement_alike(*e, *e2, *f, *f2);
        },
        _ => {},
    }
}

/// The first pass keeps two `switch` statements alike.
pub proof fn lemma_switch_alike(a: SwitchStatement, a2: SwitchStatement, b: SwitchStatement, b2: SwitchStatement)
    requires
        switch_alike(a, a2),
        switch_swizzled(a, b),
        switch_swizzled(a2, b2),
    ensures
        switch_alike(b, b2),
    decreases a, 2int,
{
    lemma_expr_alike(*a.head, *a2.head, *b.head, *b2.head);
    lemma_statements_alike(a.body, a2.body, b.body, b2.body);
}

/// The first pass keeps two loops alike.
pub proof fn lemma_iteration_alike(a: IterationStatement, a2: IterationStatement, b: IterationStatement, b2: IterationStatement)
    requires
        iteration_alike(a, a2),
        iteration_swizzled(a, b),
        iteration_swizzled(a2, b2),
    ensures
        iteration_alike(b, b2),
    decreases a, 0int,
{
    match (a, a2, b, b2) {
        (
            IterationStatement::While(c, s),
            IterationStatement::While(c2, s2),
            IterationStatement::While(d, t),
            IterationStatement::While(d2, t2),
        ) => {
            lemma_condition_alike(c, c2, d, d2);
            lemma_statement_alike(*s, *s2, *t, *t2);
        },
        (
            IterationStatement::DoWhile(s, e),
            IterationStatement::DoWhile(s2, e2),
            IterationStatement::DoWhile(t, f),
            IterationStatement::DoWhile(t2, f2),
        ) => {
            lemma_statement_alike(*s, *s2, *t, *t2);
            lemma_expr_alike(*e, *e2, *f, *f2);
        },
        (
            IterationStatement::For(i, r, s),
            IterationStatement::For(i2, r2, s2),
            IterationStatement::For(j, q, t),
            IterationStatement::For(j2, q2, t2),
        ) => {
            lemma_for_init_alike(i, i2, j, j2);
            lemma_for_rest_alike(r, r2, q, q2);
            lemma_statement_alike(*s, *s2, *t, *t2);
        },
        _ => {},
    }
}

/// The first pass keeps two function definitions alike.
pub proof fn lemma_function_alike(a: FunctionDefinition, a2: FunctionDefinition, b: FunctionDefinition, b2: FunctionDefinition)
    requires
        function_alike(a, a2),
        function_swizzled(a, b),
        function_swizzled(a2, b2),
    ensures
        function_alike(b, b2),
{
    lemma_prototype_alike(a.prototype, a2.prototype, b.prototype, b2.prototype);
    lemma_compound_alike(a.statement, a2.statement, b.statement, b2.statement);
}

/// The first pass keeps two top-level items alike.
pub proof fn lemma_external_alike(a: ExternalDeclaration, a2: ExternalDeclaration, b: ExternalDeclaration, b2: ExternalDeclaration)
    requires
        external_alike(a, a2),
        external_swizzled(a, b),
        external_swizzled(a2, b2),
    ensures
        external_alike(b, b2),
{
    match (a, a2, b, b2) {
        (
            ExternalDeclaration::FunctionDefinition(x),
            ExternalDeclaration::FunctionDefinition(x2),
            ExternalDeclaration::FunctionDefinition(y),
            ExternalDeclaration::FunctionDefinition(y2),
        ) => lemma_function_alike(x, x2, y, y2),
        (
            ExternalDeclaration::Declaration(x),
            ExternalDeclaration::Declaration(x2),
            ExternalDeclaration::Declaration(y),
            ExternalDeclaration::Declaration(y2),
        ) => lemma_declaration_alike(x, x2, y, y2),
        _ => {},
    }
}

/// The first pass keeps two shaders alike.
pub proof fn lemma_unit_alike(a: TranslationUnit, a2: TranslationUnit, b: TranslationUnit, b2: TranslationUnit)
    requires
        unit_alike(a, a2),
        unit_swizzled(a, b),
        unit_swizzled(a2, b2),
    ensures
        unit_alike(b, b2),
{
    assert forall|i: int| 0 <= i < b.0.0@.len() implies external_alike(
        b.0.0@[i],
        #[trigger] b2.0.0@[i],
    ) by {
        assert(external_alike(a.0.0@[i], a2.0.0@[i]));
        lemma_external_alike(a.0.0@[i], a2.0.0@[i], b.0.0@[i], b2.0.0@[i]);
    }
}

/// Two exit statements for one output variable are alike, though each has
/// names of its own.
pub proof fn lemma_exit_statements_alike(s: Statement, t: Statement, name: Seq<char>)
    requires
        is_exit_swizzle(s, name),
        is_exit_swizzle(t, name),
    ensures
        statement_alike(s, t),
{
    match (s, t) {
        (Statement::Simple(x), Statement::Simple(y)) => {
            match (*x, *y) {
                (
                    SimpleStatement::Expression(Some(e)),
                    SimpleStatement::Expression(Some(f)),
                ) => {
                    match (e, f) {
                        (Expr::Assignment(l, _, r), Expr::Assignment(l2, _, r2)) => {
                            assert(expr_alike(*l, *l2));
                            match (*r, *r2) {
                                (Expr::Dot(v, _), Expr::Dot(v2, _)) => {
                                    assert(expr_alike(*v, *v2));
                                },
                                _ => {},
                            }
                            assert(expr_alike(*r, *r2));
                        },
                        _ => {},
                    }
                    assert(expr_alike(e, f));
                    assert(opt_expr_alike(Some(e), Some(f)));
                },
                _ => {},
            }
            assert(simple_alike(*x, *y));
        },
        _ => {},
    }
}

/// Two runs of the second pass on the first statements of one list give
/// lists that are as long and alike statement by statement.
pub proof fn lemma_prefix_exits_alike(
    name: Seq<char>,
    a: Seq<Statement>,
    n: int,
    b: Seq<Statement>,
    b2: Seq<Statement>,
)
    requires
        0 <= n <= a.len(),
        prefix_exits(name, a, n, b),
        prefix_exits(name, a, n, b2),
    ensures
        b.len() == b2.len(),
        forall|j: int| 0 <= j < b.len() ==> statement_alike(b[j], #[trigger] b2[j]),
    decreases a, n,
{
    if n > 0 {
        let len = b.len() as int;
        let len2 = b2.len() as int;
        if is_return(a[n - 1]) {
            lemma_prefix_exits_alike(name, a, n - 1, b.take(len - 2), b2.take(len2 - 2));
            lemma_exit_statements_alike(b[len - 2], b2[len2 - 2], name);
            assert forall|j: int| 0 <= j < b.len() implies statement_alike(
                b[j],
                #[trigger] b2[j],
            ) by {
                if j < len - 2 {
                    assert(b.take(len - 2)[j] == b[j]);
                    assert(b2.take(len2 - 2)[j] == b2[j]);
                }
            }
        } else {
            lemma_prefix_exits_alike(name, a, n - 1, b.take(len - 1), b2.take(len2 - 1));
            lemma_statement_exits_alike(name, a[n - 1], b[len - 1], b2[len2 - 1]);
            assert forall|j: int| 0 <= j < b.len() implies statement_alike(
                b[j],
                #[trigger] b2[j],
            ) by {
                if j < len - 1 {
                    assert(b.take(len - 1)[j] == b[j]);
                    assert(b2.take(len2 - 1)[j] == b2[j]);
                }
            }
        }
    }
}

/// Two runs of the second pass on one statement list give results that are alike.
pub proof fn lemma_list_exits_alike(
    name: Seq<char>,
    a: Vec<Statement>,
    b: Vec<Statement>,
    b2: Vec<Statement>,
)
    requires
        list_exits(name, a@, b@),
        list_exits(name, a@, b2@),
    ensures
        statements_alike(b, b2),
    decreases a@, a@.len() + 1,
{
    lemma_prefix_exits_alike(name, a@, a@.len() as int, b@, b2@);
}

/// Two runs of the second pass on one statement give results that are alike.
pub proof fn lemma_statement_exits_alike(name: Seq<char>, a: Statement, b: Statement, b2: Statement)
    requires
        statement_exits(name, a, b),
        statement_exits(name, a, b2),
    ensures
        statement_alike(b, b2),
    decreases a, 0int,
{
    match (a, b, b2) {
        (Statement::Compound(c), Statement::Compound(d), Statement::Compound(d2)) => {
            lemma_list_exits_alike(name, c.statement_list, d.statement_list, d2.statement_list);
            assert(compound_alike(*d, *d2));
        },
        (Statement::Simple(x), Statement::Simple(y), Statement::Simple(y2)) => {
            lemma_simple_exits_alike(name, *x, *y, *y2);
        },
        _ => {},
    }
}

/// Two runs of the second pass on one statement give results that are alike.
pub proof fn lemma_body_exits_alike(name: Seq<char>, a: Statement, b: Statement, b2: Statement)
    requires
        body_exits(name, a, b),
        body_exits(name, a, b2),
    ensures
        statement_alike(b, b2),
    decreases a, 1int,
{
    if is_return(a) {
        match (b, b2) {
            (Statement::Compound(c), Statement::Compound(c2)) => {
                lemma_exit_statements_alike(c.statement_list@[0], c2.statement_list@[0], name);
                assert(statement_alike(c.statement_list@[1], c2.statement_list@[1]));
                assert(statements_alike(c.statement_list, c2.statement_list));
                assert(compound_alike(*c, *c2));
            },
            _ => {},
        }
    } else {
        lemma_statement_exits_alike(name, a, b, b2);
    }
}

/// Two runs of the second pass on one simple statement give results that are alike.
pub proof fn lemma_simple_exits_alike(
    name: Seq<char>,
    a: SimpleStatement,
    b: SimpleStatement,
    b2: SimpleStatement,
)
    requires
        simple_exits(name, a, b),
        simple_exits(name, a, b2),
    ensures
        simple_alike(b, b2),
    decreases a, 0int,
{
    match (a, b, b2) {
        (
            SimpleStatement::Selection(x),
            SimpleStatement::Selection(y),
            SimpleStatement::Selection(y2),
        ) => {
            assert(selection_exits(name, x, y) && selection_exits(name, x, y2));
            assert(expr_alike(*y.cond, *y2.cond));
            match (x.rest, y.rest, y2.rest) {
                (
                    SelectionRestStatement::Statement(t),
                    SelectionRestStatement::Statement(u),
                    SelectionRestStatement::Statement(u2),
                ) => {
                    lemma_body_exits_alike(name, *t, *u, *u2);
                },
                (
                    SelectionRestStatement::Else(t, e),
                    SelectionRestStatement::Else(u, f),
                    SelectionRestStatement::Else(u2, f2),
                ) => {
                    lemma_body_exits_alike(name, *t, *u, *u2);
                    lemma_body_exits_alike(name, *e, *f, *f2);
                },
                _ => {},
            }
            assert(selection_rest_alike(y.rest, y2.rest));
            assert(selection_alike(y, y2));
        },
        (SimpleStatement::Switch(x), SimpleStatement::Switch(y), SimpleStatement::Switch(y2)) => {
            assert(switch_exits(name, x, y) && switch_exits(name, x, y2));
            assert(expr_alike(*y.head, *y2.head));
            lemma_list_exits_alike(name, x.body, y.body, y2.body);
            assert(switch_alike(y, y2));
        },
        (
            SimpleStatement::Iteration(x),
            SimpleStatement::Iteration(y),
            SimpleStatement::Iteration(y2),
        ) => {
            assert(iteration_exits(name, x, y) && iteration_exits(name, x, y2));
            match (x, y, y2) {
                (
                    IterationStatement::While(_, s),
                    IterationStatement::While(c, t),
                    IterationStatement::While(c2, t2),
                ) => {
                    assert(condition_alike(c, c2));
                    lemma_body_exits_alike(name, *s, *t, *t2);
                },
                (
                    IterationStatement::DoWhile(s, _),
                    IterationStatement::DoWhile(t, e),
                    IterationStatement::DoWhile(t2, e2),
                ) => {
                    assert(expr_alike(*e, *e2));
                    lemma_body_exits_alike(name, *s, *t, *t2);
                },
                (
                    IterationStatement::For(_, _, s),
                    IterationStatement::For(i, r, t),
                    IterationStatement::For(i2, r2, t2),
                ) => {
                    assert(for_init_alike(i, i2));
                    assert(for_rest_alike(r, r2));
                    lemma_body_exits_alike(name, *s, *t, *t2);
                },
                _ => {},
            }
            assert(iteration_alike(y, y2));
        },
        _ => {},
    }
}

/// Two runs of the second pass on one body of `main` give bodies that are
/// alike.
pub proof fn lemma_entry_point_exits_alike(
    name: Seq<char>,
    a: CompoundStatement,
    b: CompoundStatement,
    b2: CompoundStatement,
)
    requires
        entry_point_exits(name, a, b),
        entry_point_exits(name, a, b2),
    ensures
        compound_alike(b, b2),
{
    let list = b.statement_list@;
    let list2 = b2.statement_list@;
    let len = list.len() as int;
    let len2 = list2.len() as int;
    lemma_prefix_exits_alike(
        name,
        a.statement_list@,
        a.statement_list@.len() as int,
        list.take(len - 1),
        list2.take(len2 - 1),
    );
    lemma_exit_statements_alike(list[len - 1], list2[len2 - 1], name);
    assert forall|j: int| 0 <= j < len implies statement_alike(list[j], #[trigger] list2[j]) by {
        if j < len - 1 {
            assert(list.take(len - 1)[j] == list[j]);
            assert(list2.take(len2 - 1)[j] == list2[j]);
        }
    }
    assert(statements_alike(b.statement_list, b2.statement_list));
}

/// Two runs of the second pass on one shader give shaders that are alike.
pub proof fn lemma_unit_exits_alike(a: TranslationUnit, b: TranslationUnit, b2: TranslationUnit)
    requires
        unit_exits(a, b),
        unit_exits(a, b2),
    ensures
        unit_alike(b, b2),
{
    match (output_variable(a), entry_point(a)) {
        (Some(name), Some(k)) => {
            assert forall|i: int| 0 <= i < b.0.0@.len() implies external_alike(
                b.0.0@[i],
                #[trigger] b2.0.0@[i],
            ) by {
                if i == k {
                    match (a.0.0@[k], b.0.0@[k], b2.0.0@[k]) {
                        (
                            ExternalDeclaration::FunctionDefinition(f),
                            ExternalDeclaration::FunctionDefinition(g),
                            ExternalDeclaration::FunctionDefinition(g2),
                        ) => {
                            lemma_entry_point_exits_alike(
                                name,
                                f.statement,
                                g.statement,
                                g2.statement,
                            );
                            assert(prototype_alike(g.prototype, g2.prototype));
                            assert(function_alike(g, g2));
                        },
                        _ => {},
                    }
                } else {
                    assert(b.0.0@[i] == a.0.0@[i]);
                    assert(b2.0.0@[i] == a.0.0@[i]);
                }
            }
        },
        _ => {},
    }
}

/// Whatever two runs of the rewrite make of one shader is alike.
pub proof fn lemma_rewritten_alike(a: TranslationUnit, b: TranslationUnit, b2: TranslationUnit)
    requires
        unit_rewritten(a, b),
        unit_rewritten(a, b2),
    ensures
        unit_alike(b, b2),
{
    let mid = choose|mid: TranslationUnit| #[trigger] unit_exits(a, mid) && unit_swizzled(mid, b);
    let mid2 = choose|mid: TranslationUnit| #[trigger] unit_exits(a, mid) && unit_swizzled(mid, b2);
    lemma_unit_exits_alike(a, mid, mid2);
    lemma_unit_alike(mid, mid2, b, b2);
}

} // verus!

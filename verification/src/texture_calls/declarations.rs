//! The first pass over declarations: their types, array sizes and
//! initializers.

use vstd::prelude::*;
use glsl::syntax::{
    Block, Declaration, FunctionParameterDeclaration, FunctionParameterDeclarator,
    FunctionPrototype, InitDeclaratorList, Initializer, NonEmpty, SingleDeclaration,
    SingleDeclarationNoType, StructFieldSpecifier,
};
use crate::texture_calls::exprs::{
    expr_swizzled, opt_array_spec_swizzled, swizzle_expr, swizzle_opt_array_spec,
};
use crate::texture_calls::type_specs::{
    arrayed_identifier_swizzled, full_type_swizzled, opt_arrayed_identifier_swizzled,
    opt_qualifier_swizzled, qualifier_swizzled, struct_field_swizzled, swizzle_arrayed_identifier,
    swizzle_full_type, swizzle_opt_arrayed_identifier, swizzle_opt_qualifier, swizzle_qualifier,
    swizzle_struct_field, swizzle_type_specifier, type_specifier_swizzled,
};

verus! {

/// `b` is the initializer `a` after the pass.
pub open spec fn initializer_swizzled(a: Initializer, b: Initializer) -> bool
    decreases a,
{
    match a {
        Initializer::Simple(e) => b matches Initializer::Simple(e2) && expr_swizzled(*e, *e2),
        Initializer::List(items) => b matches Initializer::List(items2) && items2.0@.len()
            == items.0@.len() && forall|i: int|
            0 <= i < items.0@.len() ==> initializer_swizzled(items.0@[i], #[trigger] items2.0@[i]),
    }
}

/// `b` is the optional initializer `a` after the pass.
pub open spec fn opt_initializer_swizzled(a: Option<Initializer>, b: Option<Initializer>) -> bool {
    match a {
        Some(i) => b matches Some(i2) && initializer_swizzled(i, i2),
        None => b is None,
    }
}

/// `b` is the first declarator of a declaration `a` after the pass.
pub open spec fn single_declaration_swizzled(a: SingleDeclaration, b: SingleDeclaration) -> bool {
    &&& full_type_swizzled(a.ty, b.ty)
    &&& b.name == a.name
    &&& opt_array_spec_swizzled(a.array_specifier, b.array_specifier)
    &&& opt_initializer_swizzled(a.initializer, b.initializer)
}

/// `b` is the further declarator of a declaration `a` after the pass.
pub open spec fn single_no_type_swizzled(
    a: SingleDeclarationNoType,
    b: SingleDeclarationNoType,
) -> bool {
    &&& arrayed_identifier_swizzled(a.ident, b.ident)
    &&& opt_initializer_swizzled(a.initializer, b.initializer)
}

/// `b` is the variable declaration `a` after the pass.
pub open spec fn init_list_swizzled(a: InitDeclaratorList, b: InitDeclaratorList) -> bool {
    &&& single_declaration_swizzled(a.head, b.head)
    &&& b.tail@.len() == a.tail@.len()
    &&& forall|i: int|
        0 <= i < a.tail@.len() ==> single_no_type_swizzled(a.tail@[i], #[trigger] b.tail@[i])
}

/// `b` is the named parameter `a` after the pass.
pub open spec fn parameter_declarator_swizzled(
    a: FunctionParameterDeclarator,
    b: FunctionParameterDeclarator,
) -> bool {
    &&& type_specifier_swizzled(a.ty, b.ty)
    &&& arrayed_identifier_swizzled(a.ident, b.ident)
}

/// `b` is the parameter `a` after the pass.
pub open spec fn parameter_swizzled(
    a: FunctionParameterDeclaration,
    b: FunctionParameterDeclaration,
) -> bool {
    match a {
        FunctionParameterDeclaration::Named(q, d) => b matches FunctionParameterDeclaration::Named(
            q2,
            d2,
        ) && opt_qualifier_swizzled(q, q2) && parameter_declarator_swizzled(d, d2),
        FunctionParameterDeclaration::Unnamed(q, t) => b matches FunctionParameterDeclaration::Unnamed(
            q2,
            t2,
        ) && opt_qualifier_swizzled(q, q2) && type_specifier_swizzled(t, t2),
    }
}

/// `b` is the function prototype `a` after the pass.
pub open spec fn prototype_swizzled(a: FunctionPrototype, b: FunctionPrototype) -> bool {
    &&& full_type_swizzled(a.ty, b.ty)
    &&& b.name == a.name
    &&& b.parameters@.len() == a.parameters@.len()
    &&& forall|i: int|
        0 <= i < a.parameters@.len() ==> parameter_swizzled(
            a.parameters@[i],
            #[trigger] b.parameters@[i],
        )
}

/// `b` is the interface block `a` after the pass.
pub open spec fn block_swizzled(a: Block, b: Block) -> bool {
    &&& qualifier_swizzled(a.qualifier, b.qualifier)
    &&& b.name == a.name
    &&& b.fields@.len() == a.fields@.len()
    &&& forall|i: int|
        0 <= i < a.fields@.len() ==> struct_field_swizzled(a.fields@[i], #[trigger] b.fields@[i])
    &&& opt_arrayed_identifier_swizzled(a.identifier, b.identifier)
}

/// `b` is the declaration `a` after the pass.
pub open spec fn declaration_swizzled(a: Declaration, b: Declaration) -> bool {
    match a {
        Declaration::FunctionPrototype(p) => b matches Declaration::FunctionPrototype(p2)
            && prototype_swizzled(p, p2),
        Declaration::InitDeclaratorList(l) => b matches Declaration::InitDeclaratorList(l2)
            && init_list_swizzled(l, l2),
        Declaration::Precision(p, t) => b matches Declaration::Precision(p2, t2) && p2 == p
            && type_specifier_swizzled(t, t2),
        Declaration::Block(k) => b matches Declaration::Block(k2) && block_swizzled(k, k2),
        Declaration::Global(q, names) => b matches Declaration::Global(q2, names2)
            && qualifier_swizzled(q, q2) && names2 == names,
    }
}

/// Rewrites an initializer.
pub fn swizzle_initializer(init: Initializer) -> (r: Initializer)
    ensures
        initializer_swizzled(init, r),
    decreases init,
{
    match init {
        Initializer::Simple(e) => Initializer::Simple(Box::new(swizzle_expr(*e))),
        Initializer::List(items) => {
            let NonEmpty(v) = items;
            let mut out: Vec<Initializer> = Vec::new();
            for x in it: v.into_iter()
                invariant
                    init matches Initializer::List(l) && l.0 == v,
                    it.seq() == v@,
                    out@.len() == it.index(),
                    forall|j: int|
                        0 <= j < out@.len() ==> initializer_swizzled(v@[j], #[trigger] out@[j]),
            {
                let y = swizzle_initializer(x);
                out.push(y);
            }
            Initializer::List(NonEmpty(out))
        },
    }
}

/// Rewrites an optional initializer.
pub fn swizzle_opt_initializer(init: Option<Initializer>) -> (r: Option<Initializer>)
    ensures
        opt_initializer_swizzled(init, r),
{
    match init {
        Some(i) => Some(swizzle_initializer(i)),
        None => None,
    }
}

/// Rewrites a first declarator of a declaration.
pub fn swizzle_single_declaration(decl: SingleDeclaration) -> (r: SingleDeclaration)
    ensures
        single_declaration_swizzled(decl, r),
{
    let SingleDeclaration { ty, name, array_specifier, initializer } = decl;
    SingleDeclaration {
        ty: swizzle_full_type(ty),
        name,
        array_specifier: swizzle_opt_array_spec(array_specifier),
        initializer: swizzle_opt_initializer(initializer),
    }
}

/// Rewrites a further declarator of a declaration.
pub fn swizzle_single_no_type(decl: SingleDeclarationNoType) -> (r: SingleDeclarationNoType)
    ensures
        single_no_type_swizzled(decl, r),
{
    let SingleDeclarationNoType { ident, initializer } = decl;
    SingleDeclarationNoType {
        ident: swizzle_arrayed_identifier(ident),
        initializer: swizzle_opt_initializer(initializer),
    }
}

/// Rewrites a variable declaration.
pub fn swizzle_init_list(list: InitDeclaratorList) -> (r: InitDeclaratorList)
    ensures
        init_list_swizzled(list, r),
{
    let InitDeclaratorList { head, tail } = list;
    let mut out: Vec<SingleDeclarationNoType> = Vec::new();
    for x in it: tail.into_iter()
        invariant
            it.seq() == tail@,
            out@.len() == it.index(),
            forall|j: int|
                0 <= j < out@.len() ==> single_no_type_swizzled(tail@[j], #[trigger] out@[j]),
    {
        let y = swizzle_single_no_type(x);
        out.push(y);
    }
    InitDeclaratorList { head: swizzle_single_declaration(head), tail: out }
}

/// Rewrites a named parameter.
pub fn swizzle_parameter_declarator(decl: FunctionParameterDeclarator) -> (r:
    FunctionParameterDeclarator)
    ensures
        parameter_declarator_swizzled(decl, r),
{
    let FunctionParameterDeclarator { ty, ident } = decl;
    FunctionParameterDeclarator {
        ty: swizzle_type_specifier(ty),
        ident: swizzle_arrayed_identifier(ident),
    }
}

/// Rewrites a parameter.
pub fn swizzle_parameter(param: FunctionParameterDeclaration) -> (r: FunctionParameterDeclaration)
    ensures
        parameter_swizzled(param, r),
{
    match param {
        FunctionParameterDeclaration::Named(q, d) => FunctionParameterDeclaration::Named(
            swizzle_opt_qualifier(q),
            swizzle_parameter_declarator(d),
        ),
        FunctionParameterDeclaration::Unnamed(q, t) => FunctionParameterDeclaration::Unnamed(
            swizzle_opt_qualifier(q),
            swizzle_type_specifier(t),
        ),
    }
}

/// Rewrites a function prototype.
pub fn swizzle_prototype(proto: FunctionPrototype) -> (r: FunctionPrototype)
    ensures
        prototype_swizzled(proto, r),
{
    let FunctionPrototype { ty, name, parameters } = proto;
    let mut out: Vec<FunctionParameterDeclaration> = Vec::new();
    for x in it: parameters.into_iter()
        invariant
            it.seq() == parameters@,
            out@.len() == it.index(),
            forall|j: int|
                0 <= j < out@.len() ==> parameter_swizzled(parameters@[j], #[trigger] out@[j]),
    {
        let y = swizzle_parameter(x);
        out.push(y);
    }
    FunctionPrototype { ty: swizzle_full_type(ty), name, parameters: out }
}

/// Rewrites an interface block.
pub fn swizzle_block(block: Block) -> (r: Block)
    ensures
        block_swizzled(block, r),
{
    let Block { qualifier, name, fields, identifier } = block;
    let mut out: Vec<StructFieldSpecifier> = Vec::new();
    for x in it: fields.into_iter()
        invariant
            it.seq() == fields@,
            out@.len() == it.index(),
            forall|j: int|
                0 <= j < out@.len() ==> struct_field_swizzled(fields@[j], #[trigger] out@[j]),
    {
        let y = swizzle_struct_field(x);
        out.push(y);
    }
    Block {
        qualifier: swizzle_qualifier(qualifier),
        name,
        fields: out,
        identifier: swizzle_opt_arrayed_identifier(identifier),
    }
}

/// Rewrites a declaration.
pub fn swizzle_declaration(decl: Declaration) -> (r: Declaration)
    ensures
        declaration_swizzled(decl, r),
{
    match decl {
        Declaration::FunctionPrototype(p) => Declaration::FunctionPrototype(swizzle_prototype(p)),
        Declaration::InitDeclaratorList(l) => Declaration::InitDeclaratorList(
            swizzle_init_list(l),
        ),
        Declaration::Precision(p, t) => Declaration::Precision(p, swizzle_type_specifier(t)),
        Declaration::Block(k) => Declaration::Block(swizzle_block(k)),
        Declaration::Global(q, names) => Declaration::Global(swizzle_qualifier(q), names),
    }
}

} // verus!

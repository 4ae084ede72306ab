//! The first pass over types and their qualifiers, which hold expressions in
//! array sizes and in layout arguments.

use vstd::prelude::*;
use glsl::syntax::{
    ArrayedIdentifier, FullySpecifiedType, LayoutQualifier, LayoutQualifierSpec, NonEmpty,
    StructFieldSpecifier, StructSpecifier, TypeQualifier, TypeQualifierSpec, TypeSpecifier,
    TypeSpecifierNonArray,
};
use crate::texture_calls::exprs::{
    boxed_expr_swizzled, opt_array_spec_swizzled, swizzle_boxed_expr, swizzle_opt_array_spec,
};

verus! {

/// `b` is the layout argument `a` after the pass.
pub open spec fn layout_spec_swizzled(a: LayoutQualifierSpec, b: LayoutQualifierSpec) -> bool {
    match a {
        LayoutQualifierSpec::Identifier(name, value) => b matches LayoutQualifierSpec::Identifier(
            name2,
            value2,
        ) && name2 == name && boxed_expr_swizzled(value, value2),
        LayoutQualifierSpec::Shared => b is Shared,
    }
}

/// `b` is the layout qualifier `a` after the pass.
pub open spec fn layout_swizzled(a: LayoutQualifier, b: LayoutQualifier) -> bool {
    &&& b.ids.0@.len() == a.ids.0@.len()
    &&& forall|i: int|
        0 <= i < a.ids.0@.len() ==> layout_spec_swizzled(a.ids.0@[i], #[trigger] b.ids.0@[i])
}

/// `b` is the qualifier `a` after the pass.
pub open spec fn qualifier_spec_swizzled(a: TypeQualifierSpec, b: TypeQualifierSpec) -> bool {
    match a {
        TypeQualifierSpec::Layout(l) => b matches TypeQualifierSpec::Layout(l2) && layout_swizzled(
            l,
            l2,
        ),
        _ => b == a,
    }
}

/// `b` is the list of qualifiers `a` after the pass.
pub open spec fn qualifier_swizzled(a: TypeQualifier, b: TypeQualifier) -> bool {
    &&& b.qualifiers.0@.len() == a.qualifiers.0@.len()
    &&& forall|i: int|
        0 <= i < a.qualifiers.0@.len() ==> qualifier_spec_swizzled(
            a.qualifiers.0@[i],
            #[trigger] b.qualifiers.0@[i],
        )
}

/// `b` is the optional list of qualifiers `a` after the pass.
pub open spec fn opt_qualifier_swizzled(a: Option<TypeQualifier>, b: Option<TypeQualifier>) -> bool {
    match a {
        Some(q) => b matches Some(q2) && qualifier_swizzled(q, q2),
        None => b is None,
    }
}

/// `b` is the declared name `a` after the pass.
pub open spec fn arrayed_identifier_swizzled(a: ArrayedIdentifier, b: ArrayedIdentifier) -> bool {
    &&& b.ident == a.ident
    &&& opt_array_spec_swizzled(a.array_spec, b.array_spec)
}

/// `b` is the optional declared name `a` after the pass.
pub open spec fn opt_arrayed_identifier_swizzled(
    a: Option<ArrayedIdentifier>,
    b: Option<ArrayedIdentifier>,
) -> bool {
    match a {
        Some(i) => b matches Some(i2) && arrayed_identifier_swizzled(i, i2),
        None => b is None,
    }
}

/// `b` is the type `a` after the pass.
pub open spec fn type_specifier_swizzled(a: TypeSpecifier, b: TypeSpecifier) -> bool
    decreases a,
{
    &&& non_array_swizzled(a.ty, b.ty)
    &&& opt_array_spec_swizzled(a.array_specifier, b.array_specifier)
}

/// `b` is the element type `a` after the pass.
pub open spec fn non_array_swizzled(a: TypeSpecifierNonArray, b: TypeSpecifierNonArray) -> bool
    decreases a,
{
    match a {
        TypeSpecifierNonArray::Struct(s) => b matches TypeSpecifierNonArray::Struct(s2)
            && struct_swizzled(s, s2),
        _ => b == a,
    }
}

/// `b` is the struct `a` after the pass.
pub open spec fn struct_swizzled(a: StructSpecifier, b: StructSpecifier) -> bool
    decreases a,
{
    &&& b.name == a.name
    &&& b.fields.0@.len() == a.fields.0@.len()
    &&& forall|i: int|
        0 <= i < a.fields.0@.len() ==> struct_field_swizzled(
            a.fields.0@[i],
            #[trigger] b.fields.0@[i],
        )
}

/// `b` is the struct field `a` after the pass.
pub open spec fn struct_field_swizzled(a: StructFieldSpecifier, b: StructFieldSpecifier) -> bool
    decreases a,
{
    &&& opt_qualifier_swizzled(a.qualifier, b.qualifier)
    &&& type_specifier_swizzled(a.ty, b.ty)
    &&& b.identifiers.0@.len() == a.identifiers.0@.len()
    &&& forall|i: int|
        0 <= i < a.identifiers.0@.len() ==> arrayed_identifier_swizzled(
            a.identifiers.0@[i],
            #[trigger] b.identifiers.0@[i],
        )
}

/// `b` is the qualified type `a` after the pass.
pub open spec fn full_type_swizzled(a: FullySpecifiedType, b: FullySpecifiedType) -> bool {
    &&& opt_qualifier_swizzled(a.qualifier, b.qualifier)
    &&& type_specifier_swizzled(a.ty, b.ty)
}

/// Rewrites a layout argument.
pub fn swizzle_layout_spec(spec: LayoutQualifierSpec) -> (r: LayoutQualifierSpec)
    ensures
        layout_spec_swizzled(spec, r),
{
    match spec {
        LayoutQualifierSpec::Identifier(name, value) => LayoutQualifierSpec::Identifier(
            name,
            swizzle_boxed_expr(value),
        ),
        LayoutQualifierSpec::Shared => LayoutQualifierSpec::Shared,
    }
}

/// Rewrites a layout qualifier.
pub fn swizzle_layout(layout: LayoutQualifier) -> (r: LayoutQualifier)
    ensures
        layout_swizzled(layout, r),
{
    let LayoutQualifier { ids: NonEmpty(v) } = layout;
    let mut out: Vec<LayoutQualifierSpec> = Vec::new();
    for x in it: v.into_iter()
        invariant
            it.seq() == v@,
            out@.len() == it.index(),
            forall|j: int| 0 <= j < out@.len() ==> layout_spec_swizzled(v@[j], #[trigger] out@[j]),
    {
        let y = swizzle_layout_spec(x);
        out.push(y);
    }
    LayoutQualifier { ids: NonEmpty(out) }
}

/// Rewrites a qualifier.
pub fn swizzle_qualifier_spec(spec: TypeQualifierSpec) -> (r: TypeQualifierSpec)
    ensures
        qualifier_spec_swizzled(spec, r),
{
    match spec {
        TypeQualifierSpec::Layout(l) => TypeQualifierSpec::Layout(swizzle_layout(l)),
        other => other,
    }
}

/// Rewrites a list of qualifiers.
pub fn swizzle_qualifier(qualifier: TypeQualifier) -> (r: TypeQualifier)
    ensures
        qualifier_swizzled(qualifier, r),
{
    let TypeQualifier { qualifiers: NonEmpty(v) } = qualifier;
    let mut out: Vec<TypeQualifierSpec> = Vec::new();
    for x in it: v.into_iter()
        invariant
            it.seq() == v@,
            out@.len() == it.index(),
            forall|j: int|
                0 <= j < out@.len() ==> qualifier_spec_swizzled(v@[j], #[trigger] out@[j]),
    {
        let y = swizzle_qualifier_spec(x);
        out.push(y);
    }
    TypeQualifier { qualifiers: NonEmpty(out) }
}

/// Rewrites an optional list of qualifiers.
pub fn swizzle_opt_qualifier(qualifier: Option<TypeQualifier>) -> (r: Option<TypeQualifier>)
    ensures
        opt_qualifier_swizzled(qualifier, r),
{
    match qualifier {
        Some(q) => Some(swizzle_qualifier(q)),
        None => None,
    }
}

/// Rewrites a declared name.
pub fn swizzle_arrayed_identifier(ident: ArrayedIdentifier) -> (r: ArrayedIdentifier)
    ensures
        arrayed_identifier_swizzled(ident, r),
{
    let ArrayedIdentifier { ident, array_spec } = ident;
    ArrayedIdentifier { ident, array_spec: swizzle_opt_array_spec(array_spec) }
}

/// Rewrites an optional declared name.
pub fn swizzle_opt_arrayed_identifier(ident: Option<ArrayedIdentifier>) -> (r: Option<
    ArrayedIdentifier,
>)
    ensures
        opt_arrayed_identifier_swizzled(ident, r),
{
    match ident {
        Some(i) => Some(swizzle_arrayed_identifier(i)),
        None => None,
    }
}

/// Rewrites a type.
pub fn swizzle_type_specifier(ty: TypeSpecifier) -> (r: TypeSpecifier)
    ensures
        type_specifier_swizzled(ty, r),
    decreases ty,
{
    let TypeSpecifier { ty, array_specifier } = ty;
    TypeSpecifier {
        ty: swizzle_non_array(ty),
        array_specifier: swizzle_opt_array_spec(array_specifier),
    }
}

/// Rewrites an element type.
pub fn swizzle_non_array(ty: TypeSpecifierNonArray) -> (r: TypeSpecifierNonArray)
    ensures
        non_array_swizzled(ty, r),
    decreases ty,
{
    match ty {
        TypeSpecifierNonArray::Struct(s) => TypeSpecifierNonArray::Struct(swizzle_struct(s)),
        other => other,
    }
}

/// Rewrites a struct.
pub fn swizzle_struct(spec: StructSpecifier) -> (r: StructSpecifier)
    ensures
        struct_swizzled(spec, r),
    decreases spec,
{
    let StructSpecifier { name, fields: NonEmpty(v) } = spec;
    let mut out: Vec<StructFieldSpecifier> = Vec::new();
    for x in it: v.into_iter()
        invariant
            v == spec.fields.0,
            it.seq() == v@,
            out@.len() == it.index(),
            forall|j: int| 0 <= j < out@.len() ==> struct_field_swizzled(v@[j], #[trigger] out@[j]),
    {
        let y = swizzle_struct_field(x);
        out.push(y);
    }
    StructSpecifier { name, fields: NonEmpty(out) }
}

/// Rewrites a list of declared names.
pub fn swizzle_arrayed_identifiers(v: Vec<ArrayedIdentifier>) -> (r: Vec<ArrayedIdentifier>)
    ensures
        r@.len() == v@.len(),
        forall|i: int| 0 <= i < v@.len() ==> arrayed_identifier_swizzled(v@[i], #[trigger] r@[i]),
{
    let mut out: Vec<ArrayedIdentifier> = Vec::new();
    for x in it: v.into_iter()
        invariant
            it.seq() == v@,
            out@.len() == it.index(),
            forall|j: int|
                0 <= j < out@.len() ==> arrayed_identifier_swizzled(v@[j], #[trigger] out@[j]),
    {
        let y = swizzle_arrayed_identifier(x);
        out.push(y);
    }
    out
}

/// Rewrites a struct field.
pub fn swizzle_struct_field(field: StructFieldSpecifier) -> (r: StructFieldSpecifier)
    ensures
        struct_field_swizzled(field, r),
    decreases field,
{
    let StructFieldSpecifier { qualifier, ty, identifiers: NonEmpty(v) } = field;
    StructFieldSpecifier {
        qualifier: swizzle_opt_qualifier(qualifier),
        ty: swizzle_type_specifier(ty),
        identifiers: NonEmpty(swizzle_arrayed_identifiers(v)),
    }
}

/// Rewrites a qualified type.
pub fn swizzle_full_type(ty: FullySpecifiedType) -> (r: FullySpecifiedType)
    ensures
        full_type_swizzled(ty, r),
{
    let FullySpecifiedType { qualifier, ty } = ty;
    FullySpecifiedType { qualifier: swizzle_opt_qualifier(qualifier), ty: swizzle_type_specifier(ty) }
}

} // verus!

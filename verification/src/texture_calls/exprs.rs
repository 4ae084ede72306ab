//! The first pass over expressions, and over the array sizes that hold them.

use vstd::prelude::*;
use glsl::syntax::{
    ArraySpecifier, ArraySpecifierDimension, Expr, FunIdentifier, Identifier, NonEmpty,
};
use crate::channels::{
    is_sampling_function, is_sampling_name, is_store_function, is_store_name,
    lemma_store_is_not_sampling, read_order, read_order_name, write_order, write_order_name,
};
use crate::source::{show_expr, shown_expr};

verus! {

/// The name under which a call's callee is looked up: the identifier itself,
/// or the printed form of an expression that stands in its place.
pub open spec fn callee_text(id: FunIdentifier) -> Seq<char> {
    match id {
        FunIdentifier::Identifier(i) => i.0@,
        FunIdentifier::Expr(e) => shown_expr(*e),
    }
}

/// `b` is the argument list `a`, each argument rewritten.
pub open spec fn args_swizzled(a: Vec<Expr>, b: Vec<Expr>) -> bool
    decreases a,
{
    &&& b@.len() == a@.len()
    &&& forall|i: int| 0 <= i < a@.len() ==> expr_swizzled(a@[i], #[trigger] b@[i])
}

/// `b` is the argument list `a` of an image store: each argument rewritten,
/// and the last one, the value written, taken through the host's order.
pub open spec fn store_args_swizzled(a: Vec<Expr>, b: Vec<Expr>) -> bool
    decreases a,
{
    &&& b@.len() == a@.len()
    &&& forall|i: int| 0 <= i < a@.len() - 1 ==> expr_swizzled(a@[i], #[trigger] b@[i])
    &&& a@.len() > 0 ==> (b@[a@.len() - 1] matches Expr::Dot(value, order) && order.0@
        == write_order() && expr_swizzled(a@[a@.len() - 1], *value))
}

/// `b` is the expression `a` after the pass: a call that reads a texel stands
/// under `.gbar`, a call that writes one has its last argument under `.argb`,
/// the arguments of every call and the parts of every other expression are
/// rewritten, and a name or a constant stays as it is.
pub open spec fn expr_swizzled(a: Expr, b: Expr) -> bool
    decreases a,
{
    match a {
        Expr::FunCall(id, args) => {
            if is_sampling_name(callee_text(id)) {
                b matches Expr::Dot(call, order) && order.0@ == read_order() && (
                *call matches Expr::FunCall(id2, args2) && id2 == id && args_swizzled(args, args2))
            } else if is_store_name(callee_text(id)) {
                b matches Expr::FunCall(id2, args2) && id2 == id && store_args_swizzled(
                    args,
                    args2,
                )
            } else {
                b matches Expr::FunCall(id2, args2) && id2 == id && args_swizzled(args, args2)
            }
        },
        Expr::Unary(op, e) => b matches Expr::Unary(op2, e2) && op2 == op && expr_swizzled(
            *e,
            *e2,
        ),
        Expr::Binary(op, l, r) => b matches Expr::Binary(op2, l2, r2) && op2 == op
            && expr_swizzled(*l, *l2) && expr_swizzled(*r, *r2),
        Expr::Ternary(c, t, f) => b matches Expr::Ternary(c2, t2, f2) && expr_swizzled(*c, *c2)
            && expr_swizzled(*t, *t2) && expr_swizzled(*f, *f2),
        Expr::Assignment(l, op, r) => b matches Expr::Assignment(l2, op2, r2) && op2 == op
            && expr_swizzled(*l, *l2) && expr_swizzled(*r, *r2),
        Expr::Bracket(e, spec) => b matches Expr::Bracket(e2, spec2) && expr_swizzled(*e, *e2)
            && array_spec_swizzled(spec, spec2),
        Expr::Dot(e, field) => b matches Expr::Dot(e2, field2) && field2 == field
            && expr_swizzled(*e, *e2),
        Expr::PostInc(e) => b matches Expr::PostInc(e2) && expr_swizzled(*e, *e2),
        Expr::PostDec(e) => b matches Expr::PostDec(e2) && expr_swizzled(*e, *e2),
        Expr::Comma(l, r) => b matches Expr::Comma(l2, r2) && expr_swizzled(*l, *l2)
            && expr_swizzled(*r, *r2),
        _ => b == a,
    }
}

/// `b` is the optional expression `a` after the pass.
pub open spec fn boxed_expr_swizzled(a: Option<Box<Expr>>, b: Option<Box<Expr>>) -> bool
    decreases a,
{
    match a {
        Some(e) => b matches Some(e2) && expr_swizzled(*e, *e2),
        None => b is None,
    }
}

/// `b` is the optional expression `a` after the pass.
pub open spec fn opt_expr_swizzled(a: Option<Expr>, b: Option<Expr>) -> bool
    decreases a,
{
    match a {
        Some(e) => b matches Some(e2) && expr_swizzled(e, e2),
        None => b is None,
    }
}

/// `b` is the array size `a` after the pass.
pub open spec fn dimension_swizzled(a: ArraySpecifierDimension, b: ArraySpecifierDimension) -> bool
    decreases a,
{
    match a {
        ArraySpecifierDimension::Unsized => b is Unsized,
        ArraySpecifierDimension::ExplicitlySized(e) => b matches ArraySpecifierDimension::ExplicitlySized(
            e2,
        ) && expr_swizzled(*e, *e2),
    }
}

/// `b` is the array specifier `a` after the pass.
pub open spec fn array_spec_swizzled(a: ArraySpecifier, b: ArraySpecifier) -> bool
    decreases a,
{
    &&& b.dimensions.0@.len() == a.dimensions.0@.len()
    &&& forall|i: int|
        0 <= i < a.dimensions.0@.len() ==> dimension_swizzled(
            a.dimensions.0@[i],
            #[trigger] b.dimensions.0@[i],
        )
}

/// `b` is the optional array specifier `a` after the pass.
pub open spec fn opt_array_spec_swizzled(a: Option<ArraySpecifier>, b: Option<ArraySpecifier>) -> bool
    decreases a,
{
    match a {
        Some(s) => b matches Some(s2) && array_spec_swizzled(s, s2),
        None => b is None,
    }
}

/// A call of a function that reads a texel comes out as the same call under
/// one `.gbar`: the same callee, as many arguments, and each argument changed
/// only by the pass itself.
pub proof fn lemma_sampling_call_wrapped_once(id: FunIdentifier, args: Vec<Expr>, b: Expr)
    requires
        is_sampling_name(callee_text(id)),
        expr_swizzled(Expr::FunCall(id, args), b),
    ensures
        b matches Expr::Dot(call, order) && order.0@ == "gbar"@ && (*call matches Expr::FunCall(
            id2,
            args2,
        ) && id2 == id && args2@.len() == args@.len() && forall|i: int|
            0 <= i < args@.len() ==> expr_swizzled(args@[i], #[trigger] args2@[i])),
{
    match b {
        Expr::Dot(call, _) => match *call {
            Expr::FunCall(_, args2) => {
                assert(args_swizzled(args, args2));
            },
            _ => {},
        },
        _ => {},
    }
}

/// A call of a function that writes a texel stays a call of the same callee
/// with as many arguments; the last argument comes out under `.argb`, and
/// every argument is otherwise changed only by the pass itself.
pub proof fn lemma_store_call_rewrites_value(id: FunIdentifier, args: Vec<Expr>, b: Expr)
    requires
        is_store_name(callee_text(id)),
        expr_swizzled(Expr::FunCall(id, args), b),
    ensures
        b matches Expr::FunCall(id2, args2) && id2 == id && args2@.len() == args@.len() && (
        forall|i: int| 0 <= i < args@.len() - 1 ==> expr_swizzled(args@[i], #[trigger] args2@[i]))
            && (args@.len() > 0 ==> (args2@[args@.len() - 1] matches Expr::Dot(value, order)
            && order.0@ == "argb"@ && expr_swizzled(args@[args@.len() - 1], *value))),
{
    lemma_store_is_not_sampling(callee_text(id));
    match b {
        Expr::FunCall(_, args2) => {
            assert(store_args_swizzled(args, args2));
        },
        _ => {},
    }
}

/// A call of any other function stays a call of the same callee, each
/// argument changed only by the pass itself.
pub proof fn lemma_other_call_kept(id: FunIdentifier, args: Vec<Expr>, b: Expr)
    requires
        !is_sampling_name(callee_text(id)),
        !is_store_name(callee_text(id)),
        expr_swizzled(Expr::FunCall(id, args), b),
    ensures
        b matches Expr::FunCall(id2, args2) && id2 == id && args_swizzled(args, args2),
{
}

/// The text under which the callee of a call is looked up.
pub fn callee_name(id: &FunIdentifier) -> (r: String)
    ensures
        r@ == callee_text(*id),
{
    match id {
        FunIdentifier::Identifier(i) => i.0.clone(),
        FunIdentifier::Expr(e) => show_expr(e),
    }
}

/// Rewrites an argument list.
pub fn swizzle_args(v: Vec<Expr>) -> (r: Vec<Expr>)
    ensures
        args_swizzled(v, r),
    decreases v,
{
    let mut out: Vec<Expr> = Vec::new();
    for x in it: v.into_iter()
        invariant
            it.seq() == v@,
            out@.len() == it.index(),
            forall|j: int| 0 <= j < out@.len() ==> expr_swizzled(v@[j], #[trigger] out@[j]),
    {
        let y = swizzle_expr(x);
        out.push(y);
    }
    out
}

/// Takes the last argument of an image store, the value written, through the
/// host's channel order.
pub fn wrap_stored_value(v: Vec<Expr>) -> (r: Vec<Expr>)
    ensures
        r@.len() == v@.len(),
        forall|i: int| 0 <= i < v@.len() - 1 ==> r@[i] == v@[i],
        v@.len() > 0 ==> (r@[v@.len() - 1] matches Expr::Dot(value, order) && order.0@
            == write_order() && *value == v@[v@.len() - 1]),
{
    let mut out = v;
    match out.pop() {
        Some(value) => {
            out.push(Expr::Dot(Box::new(value), Identifier(write_order_name())));
        },
        None => {},
    }
    out
}

/// Rewrites an expression: every call of a texture function in it is taken
/// through the channel order of the host.
pub fn swizzle_expr(e: Expr) -> (r: Expr)
    ensures
        expr_swizzled(e, r),
    decreases e,
{
    match e {
        Expr::FunCall(id, args) => {
            let name = callee_name(&id);
            if is_sampling_function(&name) {
                let call = Expr::FunCall(id, swizzle_args(args));
                Expr::Dot(Box::new(call), Identifier(read_order_name()))
            } else if is_store_function(&name) {
                let rewritten = swizzle_args(args);
                let stored = wrap_stored_value(rewritten);
                assert(store_args_swizzled(args, stored));
                Expr::FunCall(id, stored)
            } else {
                Expr::FunCall(id, swizzle_args(args))
            }
        },
        Expr::Unary(op, e) => Expr::Unary(op, Box::new(swizzle_expr(*e))),
        Expr::Binary(op, l, r) => Expr::Binary(
            op,
            Box::new(swizzle_expr(*l)),
            Box::new(swizzle_expr(*r)),
        ),
        Expr::Ternary(c, t, f) => Expr::Ternary(
            Box::new(swizzle_expr(*c)),
            Box::new(swizzle_expr(*t)),
            Box::new(swizzle_expr(*f)),
        ),
        Expr::Assignment(l, op, r) => Expr::Assignment(
            Box::new(swizzle_expr(*l)),
            op,
            Box::new(swizzle_expr(*r)),
        ),
        Expr::Bracket(e, spec) => Expr::Bracket(
            Box::new(swizzle_expr(*e)),
            swizzle_array_spec(spec),
        ),
        Expr::Dot(e, field) => Expr::Dot(Box::new(swizzle_expr(*e)), field),
        Expr::PostInc(e) => Expr::PostInc(Box::new(swizzle_expr(*e))),
        Expr::PostDec(e) => Expr::PostDec(Box::new(swizzle_expr(*e))),
        Expr::Comma(l, r) => Expr::Comma(Box::new(swizzle_expr(*l)), Box::new(swizzle_expr(*r))),
        other => other,
    }
}

/// Rewrites an optional expression.
pub fn swizzle_boxed_expr(e: Option<Box<Expr>>) -> (r: Option<Box<Expr>>)
    ensures
        boxed_expr_swizzled(e, r),
    decreases e,
{
    match e {
        Some(e) => Some(Box::new(swizzle_expr(*e))),
        None => None,
    }
}

/// Rewrites an optional expression.
pub fn swizzle_opt_expr(e: Option<Expr>) -> (r: Option<Expr>)
    ensures
        opt_expr_swizzled(e, r),
    decreases e,
{
    match e {
        Some(e) => Some(swizzle_expr(e)),
        None => None,
    }
}

/// Rewrites an array size.
pub fn swizzle_dimension(d: ArraySpecifierDimension) -> (r: ArraySpecifierDimension)
    ensures
        dimension_swizzled(d, r),
    decreases d,
{
    match d {
        ArraySpecifierDimension::Unsized => ArraySpecifierDimension::Unsized,
        ArraySpecifierDimension::ExplicitlySized(e) => ArraySpecifierDimension::ExplicitlySized(
            Box::new(swizzle_expr(*e)),
        ),
    }
}

/// Rewrites an array specifier.
pub fn swizzle_array_spec(spec: ArraySpecifier) -> (r: ArraySpecifier)
    ensures
        array_spec_swizzled(spec, r),
    decreases spec,
{
    let ArraySpecifier { dimensions: NonEmpty(v) } = spec;
    let mut out: Vec<ArraySpecifierDimension> = Vec::new();
    for x in it: v.into_iter()
        invariant
            v == spec.dimensions.0,
            it.seq() == v@,
            out@.len() == it.index(),
            forall|j: int| 0 <= j < out@.len() ==> dimension_swizzled(v@[j], #[trigger] out@[j]),
    {
        let y = swizzle_dimension(x);
        out.push(y);
    }
    ArraySpecifier { dimensions: NonEmpty(out) }
}

/// Rewrites an optional array specifier.
pub fn swizzle_opt_array_spec(spec: Option<ArraySpecifier>) -> (r: Option<ArraySpecifier>)
    ensures
        opt_array_spec_swizzled(spec, r),
    decreases spec,
{
    match spec {
        Some(s) => Some(swizzle_array_spec(s)),
        None => None,
    }
}

} // verus!

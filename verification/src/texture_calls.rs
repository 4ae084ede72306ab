//! The first pass: every call of a texture function is taken through the
//! channel order of the host.
//!
//! A call that reads a texel, `f(a, b)`, becomes `f(a, b).gbar`; a call that
//! writes one, `imageStore(i, p, v)`, becomes `imageStore(i, p, v.argb)`. The
//! arguments of every call are rewritten in the same way first; the callee is
//! left as it is. Everything that is not a call keeps its shape, and every
//! part of the tree that holds no expression is moved over as it is.
//!
//! Each `*_swizzled(a, b)` in these modules says that `b` is `a` after this
//! pass, and each `swizzle_*` computes such a `b`.

pub mod declarations;
pub mod exprs;
pub mod statements;
pub mod type_specs;

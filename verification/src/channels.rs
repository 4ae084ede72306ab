//! The fixed names and channel orders of the rewriting passes.
//!
//! The host stores a pixel as alpha, red, green, blue; a shader reads and
//! writes red, green, blue, alpha. A value read from a texture is therefore
//! taken through `.gbar`, and a value handed back to the host through `.argb`.

use vstd::prelude::*;

verus! {

/// The component order that turns a host-order value into shader order.
pub open spec fn read_order() -> Seq<char> {
    "gbar"@
}

/// The component order that turns a shader-order value into host order.
pub open spec fn write_order() -> Seq<char> {
    "argb"@
}

/// Whether `name` is a function that reads a texel from a texture.
pub open spec fn is_sampling_name(name: Seq<char>) -> bool {
    ||| name == "texture"@
    ||| name == "textureOffset"@
    ||| name == "textureProj"@
    ||| name == "textureProjOffset"@
    ||| name == "textureLod"@
    ||| name == "textureLodOffset"@
    ||| name == "textureGrad"@
    ||| name == "texelFetch"@
    ||| name == "textureGather"@
}

/// Whether `name` is a function that writes a texel into an image.
pub open spec fn is_store_name(name: Seq<char>) -> bool {
    name == "imageStore"@
}

/// No function both reads and writes.
pub proof fn lemma_store_is_not_sampling(name: Seq<char>)
    requires
        is_store_name(name),
    ensures
        !is_sampling_name(name),
{
    reveal_strlit("imageStore");
    reveal_strlit("texture");
    reveal_strlit("textureOffset");
    reveal_strlit("textureProj");
    reveal_strlit("textureProjOffset");
    reveal_strlit("textureLod");
    reveal_strlit("textureLodOffset");
    reveal_strlit("textureGrad");
    reveal_strlit("texelFetch");
    reveal_strlit("textureGather");
    assert(name.len() == 10);
    assert(name[0] == 'i');
}

pub(crate) fn same_text(a: &String, b: &str) -> (r: bool)
    ensures
        r == (a@ == b@),
{
    let other: String = b.to_owned();
    a.eq(&other)
}

/// Whether `name` is a function that reads a texel from a texture.
pub fn is_sampling_function(name: &String) -> (r: bool)
    ensures
        r == is_sampling_name(name@),
{
    same_text(name, "texture") || same_text(name, "textureOffset") || same_text(
        name,
        "textureProj",
    ) || same_text(name, "textureProjOffset") || same_text(name, "textureLod") || same_text(
        name,
        "textureLodOffset",
    ) || same_text(name, "textureGrad") || same_text(name, "texelFetch") || same_text(
        name,
        "textureGather",
    )
}

/// Whether `name` is a function that writes a texel into an image.
pub fn is_store_function(name: &String) -> (r: bool)
    ensures
        r == is_store_name(name@),
{
    same_text(name, "imageStore")
}

/// The name of the component order applied to what a texture read returns.
pub fn read_order_name() -> (r: String)
    ensures
        r@ == read_order(),
{
    "gbar".to_owned()
}

/// The name of the component order applied to what goes back to the host.
pub fn write_order_name() -> (r: String)
    ensures
        r@ == write_order(),
{
    "argb".to_owned()
}

} // verus!

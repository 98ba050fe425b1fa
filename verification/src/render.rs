use vstd::prelude::*;

use crate::model::StaticDecl;

verus! {

/// The text of the generated accessor: an `impl` block on the type `ty`
/// whose single zero-argument method returns a `'static` reference to the
/// static binding `st`.
pub open spec fn accessor_text(ty: Seq<char>, st: Seq<char>) -> Seq<char> {
    "impl "@ + ty + " { pub fn get_instance() -> &'static "@ + ty + " { &"@ + st + " } }"@
}

/// The attribute form's whole output: the static declaration's text, a
/// separating space, and the accessor on `ty` backed by the binding `name`.
pub open spec fn static_expansion_text(
    ty: Seq<char>,
    name: Seq<char>,
    text: Seq<char>,
) -> Seq<char> {
    text + " "@ + accessor_text(ty, name)
}

/// Build the accessor method for the type `type_path`, returning a reference
/// to the static binding `static_name`.
pub fn render_accessor(type_path: &str, static_name: &str) -> (r: String)
    ensures
        r@ == accessor_text(type_path@, static_name@),
{
    let mut out: String = "impl ".to_owned();
    out.append(type_path);
    out.append(" { pub fn get_instance() -> &'static ");
    out.append(type_path);
    out.append(" { &");
    out.append(static_name);
    out.append(" } }");
    out
}

/// Re-emit the static declaration unchanged and append the accessor that
/// exposes it on the type `type_path`.
pub fn expand_with_static(type_path: &str, decl: &StaticDecl) -> (r: String)
    ensures
        r@ == static_expansion_text(type_path@, decl.name@, decl.text@),
{
    let mut out = decl.text.clone();
    out.append(" ");
    let acc = render_accessor(type_path, decl.name.as_str());
    out.append(acc.as_str());
    out
}

/// Law: the attribute form's output carries the static declaration through
/// unchanged — its text is exactly the front of the output — and everything
/// after it and the separating space is exactly the generated accessor.
pub proof fn lemma_expansion_preserves_declaration(
    ty: Seq<char>,
    name: Seq<char>,
    text: Seq<char>,
)
    ensures
        static_expansion_text(ty, name, text).subrange(0, text.len() as int) == text,
        static_expansion_text(ty, name, text).skip(text.len() as int + 1) == accessor_text(
            ty,
            name,
        ),
{
    reveal_strlit(" ");
    assert(static_expansion_text(ty, name, text).subrange(0, text.len() as int) =~= text);
    assert(static_expansion_text(ty, name, text).skip(text.len() as int + 1) =~= accessor_text(
        ty,
        name,
    ));
}

} // verus!

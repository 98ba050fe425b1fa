use vstd::prelude::*;

use crate::model::{Attr, AttrView, StaticDecl, StructInput};

verus! {

/// What the pinned parser yields for the attribute form's argument list: the
/// rendered token text of the type path when the whole input parses as
/// exactly one type path, and the parser's diagnostic text otherwise. One
/// name covers the parse and the rendering as a single boundary; with the
/// fallback printer forced below, both components are functions of the input
/// text alone.
pub uninterp spec fn parsed_type_path(s: Seq<char>) -> Result<Seq<char>, Seq<char>>;

/// What the pinned parser yields for the attribute form's item: the static
/// binding's name and the declaration's rendered token text when the whole
/// input parses as a static declaration, and the parser's diagnostic text
/// otherwise. One name covers the parse and the rendering as a single
/// boundary; with the fallback printer forced below, both components are
/// functions of the input text alone.
pub uninterp spec fn parsed_static(s: Seq<char>) -> Result<(Seq<char>, Seq<char>), Seq<char>>;

/// What the pinned parser yields for the derive form's input: the declared
/// name and, for each attached attribute in order, its path's rendered text
/// beside its argument classified as a single bare identifier or not; the
/// parser's diagnostic text when the input does not parse as a derive-style
/// declaration. One name covers the parse and the rendering as a single
/// boundary; with the fallback printer forced below, all components are
/// functions of the input text alone.
pub uninterp spec fn parsed_struct(s: Seq<char>) -> Result<(Seq<char>, Seq<AttrView>), Seq<char>>;

/// Relies on `syn::parse_str::<syn::TypePath>`, which succeeds exactly when
/// the whole input is one type path and whose error displays as its message
/// text alone, and on `proc_macro2::fallback::force`, which pins rendering
/// to proc-macro2's own printer — never a host compiler's — so that the text
/// `quote`'s token printing gives back depends on the input alone.
#[verifier::external_body]
pub(crate) fn parse_type_path(src: &str) -> (r: Result<String, String>)
    ensures
        match r {
            Ok(t) => parsed_type_path(src@) == Ok::<Seq<char>, Seq<char>>(t@),
            Err(m) => parsed_type_path(src@) == Err::<Seq<char>, Seq<char>>(m@),
        },
{
    proc_macro2::fallback::force();
    match syn::parse_str::<syn::TypePath>(src) {
        Ok(tp) => Ok(quote::ToTokens::to_token_stream(&tp).to_string()),
        Err(e) => Err(e.to_string()),
    }
}

/// Relies on `syn::parse_str::<syn::ItemStatic>`, which succeeds exactly
/// when the whole input is a static declaration and whose error displays as
/// its message text alone, and on `proc_macro2::fallback::force`, which pins
/// rendering to proc-macro2's own printer — never a host compiler's — so
/// that the declaration's rendered text depends on the input alone.
#[verifier::external_body]
pub(crate) fn parse_item_static(src: &str) -> (r: Result<StaticDecl, String>)
    ensures
        match r {
            Ok(d) => parsed_static(src@) == Ok::<(Seq<char>, Seq<char>), Seq<char>>(d@),
            Err(m) => parsed_static(src@) == Err::<(Seq<char>, Seq<char>), Seq<char>>(m@),
        },
{
    proc_macro2::fallback::force();
    match syn::parse_str::<syn::ItemStatic>(src) {
        Ok(item) => Ok(
            StaticDecl {
                name: item.ident.to_string(),
                text: quote::ToTokens::to_token_stream(&item).to_string(),
            },
        ),
        Err(e) => Err(e.to_string()),
    }
}

/// Relies on `syn::parse_str::<syn::DeriveInput>`, whose error displays as
/// its message text alone, on `syn::Attribute::parse_args::<syn::Expr>` and
/// `syn::Path::get_ident` — which returns the identifier exactly when the
/// path is one bare segment without arguments — to classify each attribute's
/// argument, and on `proc_macro2::fallback::force`, which pins rendering to
/// proc-macro2's own printer — never a host compiler's — so that each
/// attribute path's rendered text depends on the input alone.
#[verifier::external_body]
pub(crate) fn parse_struct_input(src: &str) -> (r: Result<StructInput, String>)
    ensures
        match r {
            Ok(si) => parsed_struct(src@) == Ok::<(Seq<char>, Seq<AttrView>), Seq<char>>(si@),
            Err(m) => parsed_struct(src@) == Err::<(Seq<char>, Seq<AttrView>), Seq<char>>(m@),
        },
{
    proc_macro2::fallback::force();
    let di: syn::DeriveInput = match syn::parse_str(src) {
        Ok(d) => d,
        Err(e) => return Err(e.to_string()),
    };
    let attrs = di.attrs.iter().map(|a| Attr {
        name: quote::ToTokens::to_token_stream(a.path()).to_string(),
        arg: match a.parse_args::<syn::Expr>() {
            Ok(syn::Expr::Path(p)) => p.path.get_ident().map(|id| id.to_string()),
            _ => None,
        },
    }).collect();
    Ok(StructInput { name: di.ident.to_string(), attrs })
}

} // verus!

use vstd::prelude::*;

use crate::locate::{find_singleton_static_name, locate_marker};
use crate::model::{ExpandError, StructInput};
use crate::render::{accessor_text, expand_with_static, render_accessor, static_expansion_text};
use crate::syntax::{
    parse_item_static, parse_struct_input, parse_type_path, parsed_static, parsed_struct,
    parsed_type_path,
};

verus! {

/// Emit the derive form's output for an already-parsed declaration: the
/// accessor alone, on the declared type, backed by the static named by the
/// first well-formed marker annotation; refuse when there is none.
pub fn expand_derive(input: &StructInput) -> (r: Result<String, ExpandError>)
    ensures
        match locate_marker(input@.1) {
            Some(st) => (r matches Ok(out) && out@ == accessor_text(input@.0, st)),
            None => r == Err::<String, ExpandError>(ExpandError::MarkerMissing),
        },
{
    match find_singleton_static_name(&input.attrs) {
        Some(id) => Ok(render_accessor(input.name.as_str(), id.as_str())),
        None => Err(ExpandError::MarkerMissing),
    }
}

/// Attribute-form expansion: the argument list must be a single type path
/// and the item a static declaration; the output re-emits the static
/// unchanged and appends the accessor on the named type. Either parse
/// failure aborts with the parser's own diagnostic and no output, the
/// argument list being checked first.
pub fn singleton_from_static(args: &str, item: &str) -> (r: Result<String, ExpandError>)
    ensures
        match parsed_type_path(args@) {
            Err(m) => (r matches Err(e) && e matches ExpandError::NotATypePath(t) && t@ == m),
            Ok(ty) => match parsed_static(item@) {
                Err(m) => (r matches Err(e) && e matches ExpandError::NotAStatic(t) && t@
                    == m),
                Ok(st) => (r matches Ok(out) && out@ == static_expansion_text(
                    ty,
                    st.0,
                    st.1,
                )),
            },
        },
{
    let ty = match parse_type_path(args) {
        Ok(t) => t,
        Err(m) => {
            return Err(ExpandError::NotATypePath(m));
        },
    };
    let decl = match parse_item_static(item) {
        Ok(d) => d,
        Err(m) => {
            return Err(ExpandError::NotAStatic(m));
        },
    };
    Ok(expand_with_static(ty.as_str(), &decl))
}

/// Derive-form expansion: the input must parse as a declaration carrying,
/// among its attributes, a marker annotation with a single bare identifier
/// argument; the output is the accessor alone — the declaration itself is
/// not re-emitted. An unparsable input aborts with the parser's own
/// diagnostic; a missing or malformed marker aborts with the same fixed
/// failure either way.
pub fn derive_singleton(input: &str) -> (r: Result<String, ExpandError>)
    ensures
        match parsed_struct(input@) {
            Err(m) => (r matches Err(e) && e matches ExpandError::NotADeriveInput(t) && t@
                == m),
            Ok(si) => match locate_marker(si.1) {
                None => r == Err::<String, ExpandError>(ExpandError::MarkerMissing),
                Some(st) => (r matches Ok(out) && out@ == accessor_text(si.0, st)),
            },
        },
{
    let si = match parse_struct_input(input) {
        Ok(s) => s,
        Err(m) => {
            return Err(ExpandError::NotADeriveInput(m));
        },
    };
    expand_derive(&si)
}

} // verus!

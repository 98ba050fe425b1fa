use vstd::prelude::*;

verus! {

/// The name of the marker annotation that ties a struct to its backing static.
pub open spec fn marker_name() -> Seq<char> {
    "singleton"@
}

/// The mathematical image of one attribute: the rendered text of its path,
/// beside its argument classified as a single bare identifier or not.
pub type AttrView = (Seq<char>, Option<Seq<char>>);

/// An attribute attached to a declaration, reduced to what the transformers
/// read: the rendered text of its path, and its argument classified as either
/// a single bare identifier (`Some` of its text) or anything else (`None`).
pub struct Attr {
    pub name: String,
    pub arg: Option<String>,
}

impl View for Attr {
    type V = AttrView;

    open spec fn view(&self) -> AttrView {
        (
            self.name@,
            match self.arg {
                Some(id) => Some(id@),
                None => None,
            },
        )
    }
}

/// Whether one attribute is a well-formed marker: named `singleton` and
/// carrying a single bare identifier argument.
pub open spec fn is_marker(a: AttrView) -> bool {
    a.0 == marker_name() && a.1 is Some
}

/// The attribute list of a declaration, as attribute images in order.
pub open spec fn attrs_view(attrs: Seq<Attr>) -> Seq<AttrView> {
    attrs.map_values(|a: Attr| a@)
}

/// A declaration as the derive form reads it: its name and its attached
/// attributes, in declaration order.
pub struct StructInput {
    pub name: String,
    pub attrs: Vec<Attr>,
}

impl View for StructInput {
    type V = (Seq<char>, Seq<AttrView>);

    open spec fn view(&self) -> (Seq<char>, Seq<AttrView>) {
        (self.name@, attrs_view(self.attrs@))
    }
}

/// A static declaration as the attribute form reads it: the name of the
/// binding and the declaration's rendered token text.
pub struct StaticDecl {
    pub name: String,
    pub text: String,
}

impl View for StaticDecl {
    type V = (Seq<char>, Seq<char>);

    open spec fn view(&self) -> (Seq<char>, Seq<char>) {
        (self.name@, self.text@)
    }
}

/// Why an expansion was refused. A parse failure carries the parser's own
/// diagnostic text, surfaced to the caller as the compile-time error; the
/// missing marker is the one failure with a fixed message of this library's
/// own.
#[derive(Clone, PartialEq, Eq, Debug)]
pub enum ExpandError {
    /// The attribute form's argument list is not a single type path.
    NotATypePath(String),
    /// The attribute form's item is not a static declaration.
    NotAStatic(String),
    /// The derive form's input is not a parsable declaration.
    NotADeriveInput(String),
    /// The derive form found no marker annotation with an identifier argument.
    MarkerMissing,
}

impl ExpandError {
    /// The diagnostic text for this failure: the parser's for a parse
    /// failure, the fixed message for a missing marker.
    pub open spec fn spec_message(&self) -> Seq<char> {
        match self {
            ExpandError::NotATypePath(m) => m@,
            ExpandError::NotAStatic(m) => m@,
            ExpandError::NotADeriveInput(m) => m@,
            ExpandError::MarkerMissing => "#[singleton(STATIC_NAME)] is required"@,
        }
    }

    /// Render the diagnostic text for this failure.
    pub fn message(&self) -> (m: String)
        ensures
            m@ == self.spec_message(),
    {
        match self {
            ExpandError::NotATypePath(m) => m.clone(),
            ExpandError::NotAStatic(m) => m.clone(),
            ExpandError::NotADeriveInput(m) => m.clone(),
            ExpandError::MarkerMissing => "#[singleton(STATIC_NAME)] is required".to_owned(),
        }
    }
}

} // verus!

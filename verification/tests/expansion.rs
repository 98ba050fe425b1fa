use proc_singleton::{
    derive_singleton, expand_with_static, find_singleton_static_name, render_accessor,
    singleton_from_static, Attr, ExpandError, StaticDecl,
};
use quote::ToTokens;

const ACCESSOR: &str = "impl Identifier { pub fn get_instance() -> &'static Identifier { &IDENT } }";

fn rendered_static(src: &str) -> String {
    syn::parse_str::<syn::ItemStatic>(src)
        .unwrap()
        .to_token_stream()
        .to_string()
}

fn attr(name: &str, arg: Option<&str>) -> Attr {
    Attr {
        name: name.to_string(),
        arg: arg.map(|a| a.to_string()),
    }
}

#[test]
fn attribute_form_expands_static() {
    let args = "Identifier";
    let item = "static IDENT: LazyLock<Identifier> = LazyLock::new(|| Identifier { id: 4 });";
    let out = singleton_from_static(args, item).unwrap();
    let static_text = rendered_static(item);
    assert_eq!(out, format!("{} {}", static_text, ACCESSOR));
    assert!(out.starts_with(&static_text));
    assert!(out.ends_with(ACCESSOR));
}

#[test]
fn attribute_form_takes_qualified_type_path() {
    let out = singleton_from_static("config::Settings", "static CONF: u32 = 7;").unwrap();
    let path_text = syn::parse_str::<syn::TypePath>("config::Settings")
        .unwrap()
        .to_token_stream()
        .to_string();
    assert_eq!(
        out,
        format!(
            "static CONF : u32 = 7 ; impl {} {{ pub fn get_instance() -> &'static {} {{ &CONF }} }}",
            path_text, path_text
        )
    );
}

#[test]
fn attribute_form_rejects_literal_args() {
    let expected = syn::parse_str::<syn::TypePath>("123").err().unwrap().to_string();
    assert_eq!(
        singleton_from_static("123", "static IDENT: u32 = 1;"),
        Err(ExpandError::NotATypePath(expected))
    );
}

#[test]
fn attribute_form_rejects_trailing_args() {
    let expected = syn::parse_str::<syn::TypePath>("Identifier Extra")
        .err()
        .unwrap()
        .to_string();
    assert_eq!(
        singleton_from_static("Identifier Extra", "static IDENT: u32 = 1;"),
        Err(ExpandError::NotATypePath(expected))
    );
}

#[test]
fn attribute_form_rejects_non_static_item() {
    let expected = syn::parse_str::<syn::ItemStatic>("fn main() {}")
        .err()
        .unwrap()
        .to_string();
    assert_eq!(
        singleton_from_static("Identifier", "fn main() {}"),
        Err(ExpandError::NotAStatic(expected))
    );
}

#[test]
fn attribute_form_rejects_reexpanded_output() {
    let first = singleton_from_static("Identifier", "static IDENT: u32 = 1;").unwrap();
    match singleton_from_static("Identifier", &first) {
        Err(ExpandError::NotAStatic(_)) => {}
        r => panic!("re-expansion did not abort with a parse failure: {:?}", r),
    }
}

#[test]
fn derive_form_emits_accessor_only() {
    let out = derive_singleton("#[singleton(IDENT)] struct Identifier { id: u32 }").unwrap();
    assert_eq!(out, ACCESSOR);
    assert!(!out.contains("struct"));
}

#[test]
fn derive_form_missing_marker_aborts() {
    let r = derive_singleton("struct Identifier { id: u32 }");
    assert_eq!(r, Err(ExpandError::MarkerMissing));
    assert_eq!(
        ExpandError::MarkerMissing.message(),
        "#[singleton(STATIC_NAME)] is required"
    );
}

#[test]
fn derive_form_literal_argument_is_same_failure_as_missing() {
    let r = derive_singleton("#[singleton(\"IDENT\")] struct Identifier { id: u32 }");
    assert_eq!(r, Err(ExpandError::MarkerMissing));
}

#[test]
fn derive_form_expression_argument_is_same_failure_as_missing() {
    let r = derive_singleton("#[singleton(a + b)] struct Identifier { id: u32 }");
    assert_eq!(r, Err(ExpandError::MarkerMissing));
}

#[test]
fn derive_form_path_argument_is_same_failure_as_missing() {
    let r = derive_singleton("#[singleton(crate::IDENT)] struct Identifier { id: u32 }");
    assert_eq!(r, Err(ExpandError::MarkerMissing));
}

#[test]
fn derive_form_empty_marker_is_same_failure_as_missing() {
    let r = derive_singleton("#[singleton()] struct Identifier { id: u32 }");
    assert_eq!(r, Err(ExpandError::MarkerMissing));
}

#[test]
fn derive_form_first_marker_wins() {
    let out =
        derive_singleton("#[singleton(FIRST)] #[singleton(SECOND)] struct Identifier;").unwrap();
    assert_eq!(
        out,
        "impl Identifier { pub fn get_instance() -> &'static Identifier { &FIRST } }"
    );
}

#[test]
fn derive_form_skips_malformed_marker_then_finds_next() {
    let out = derive_singleton("#[singleton(1)] #[singleton(GOOD)] struct Identifier;").unwrap();
    assert_eq!(
        out,
        "impl Identifier { pub fn get_instance() -> &'static Identifier { &GOOD } }"
    );
}

#[test]
fn derive_form_ignores_other_attributes() {
    let out =
        derive_singleton("#[allow(dead_code)] #[singleton(IDENT)] struct Identifier;").unwrap();
    assert_eq!(out, ACCESSOR);
}

#[test]
fn derive_form_rejects_unparsable_input() {
    let expected = syn::parse_str::<syn::DeriveInput>("fn not_a_struct() {}")
        .err()
        .unwrap()
        .to_string();
    assert_eq!(
        derive_singleton("fn not_a_struct() {}"),
        Err(ExpandError::NotADeriveInput(expected))
    );
}

#[test]
fn locator_returns_first_well_formed_marker() {
    let attrs = vec![
        attr("derive", Some("Debug")),
        attr("singleton", None),
        attr("singleton", Some("FIRST")),
        attr("singleton", Some("SECOND")),
    ];
    assert_eq!(
        find_singleton_static_name(&attrs),
        Some("FIRST".to_string())
    );
}

#[test]
fn locator_reports_absence_without_marker() {
    let attrs = vec![attr("derive", Some("Debug")), attr("allow", None)];
    assert_eq!(find_singleton_static_name(&attrs), None);
}

#[test]
fn locator_reports_absence_for_malformed_markers_only() {
    let attrs = vec![attr("singleton", None), attr("singleton", None)];
    assert_eq!(find_singleton_static_name(&attrs), None);
}

#[test]
fn locator_reports_absence_on_empty_list() {
    assert_eq!(find_singleton_static_name(&Vec::new()), None);
}

#[test]
fn render_accessor_exact_text() {
    assert_eq!(
        render_accessor("Config", "SETTINGS"),
        "impl Config { pub fn get_instance() -> &'static Config { &SETTINGS } }"
    );
}

#[test]
fn expand_with_static_keeps_declaration_in_front() {
    let decl = StaticDecl {
        name: "COUNTER".to_string(),
        text: "static COUNTER : u64 = 0 ;".to_string(),
    };
    assert_eq!(
        expand_with_static("Counter", &decl),
        "static COUNTER : u64 = 0 ; impl Counter { pub fn get_instance() -> &'static Counter { &COUNTER } }"
    );
}

#[test]
fn parse_errors_carry_parser_diagnostics() {
    let e = singleton_from_static("123", "static IDENT: u32 = 1;").unwrap_err();
    assert_eq!(
        e.message(),
        syn::parse_str::<syn::TypePath>("123").err().unwrap().to_string()
    );
    assert!(!e.message().is_empty());
}

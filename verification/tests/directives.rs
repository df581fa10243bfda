use boilermates::attributes::BoilermatesFieldAttribute;
use boilermates::attributes::BoilermatesNotIn;
use boilermates::attributes::BoilermatesOnlyIn;
use boilermates::attributes::BoilermatesStructAttribute;
use boilermates::attributes::Error;

fn attrs_of(src: &str) -> Vec<syn::Attribute> {
    let item: syn::DeriveInput = syn::parse_str(src).unwrap();
    item.attrs
}

#[test]
fn unknown_field_directive_names_offending_text() {
    let mut attrs = attrs_of("#[boilermates(frobnicate)] struct X {}");
    let r = BoilermatesFieldAttribute::extract(&mut attrs);
    match r {
        Err(Error::UnknownDirective(t)) => assert_eq!(t, "frobnicate"),
        _ => panic!("expected an unknown-directive error"),
    }
    let mut attrs = attrs_of("#[boilermates(frobnicate)] struct X {}");
    let e = BoilermatesFieldAttribute::extract(&mut attrs).unwrap_err();
    assert!(e.message().contains("frobnicate"));
}

#[test]
fn word_directives_parse() {
    let mut attrs = attrs_of("#[boilermates(default)] #[boilermates(only_in_self)] struct X {}");
    let ds = BoilermatesFieldAttribute::extract(&mut attrs).unwrap();
    assert_eq!(
        ds,
        vec![BoilermatesFieldAttribute::Default, BoilermatesFieldAttribute::OnlyInSelf]
    );
    assert!(attrs.is_empty());
}

#[test]
fn only_in_accepts_idents_and_strings() {
    let mut attrs = attrs_of("#[boilermates(only_in(Main, \"B\"))] struct X {}");
    let ds = BoilermatesFieldAttribute::extract(&mut attrs).unwrap();
    assert_eq!(
        ds,
        vec![BoilermatesFieldAttribute::OnlyIn(BoilermatesOnlyIn(vec![
            "Main".to_string(),
            "B".to_string()
        ]))]
    );
}

#[test]
fn not_in_parses() {
    let mut attrs = attrs_of("#[boilermates(not_in(C))] struct X {}");
    let ds = BoilermatesFieldAttribute::extract(&mut attrs).unwrap();
    assert_eq!(
        ds,
        vec![BoilermatesFieldAttribute::NotIn(BoilermatesNotIn(vec!["C".to_string()]))]
    );
}

#[test]
fn foreign_annotations_kept_in_order() {
    let mut attrs = attrs_of(
        "#[derive(Debug)] #[boilermates(default)] #[serde(rename_all = \"camelCase\")] struct X {}",
    );
    let ds = BoilermatesFieldAttribute::extract(&mut attrs).unwrap();
    assert_eq!(ds.len(), 1);
    assert_eq!(attrs.len(), 2);
    assert!(attrs[0].path().is_ident("derive"));
    assert!(attrs[1].path().is_ident("serde"));
}

#[test]
fn expected_name_error_names_argument() {
    let mut attrs = attrs_of("#[boilermates(only_in(42))] struct X {}");
    match BoilermatesFieldAttribute::extract(&mut attrs) {
        Err(Error::ExpectedName(t)) => assert_eq!(t, "42"),
        _ => panic!("expected an argument-kind error"),
    }
}

#[test]
fn malformed_argument_list_fails() {
    let mut attrs = attrs_of("#[boilermates(only_in(fn))] struct X {}");
    match BoilermatesFieldAttribute::extract(&mut attrs) {
        Err(Error::Malformed(_)) => {},
        _ => panic!("expected a malformed-payload error"),
    }
}

#[test]
fn first_failure_aborts_extraction() {
    let mut attrs =
        attrs_of("#[boilermates(frobnicate)] #[boilermates(zork)] struct X {}");
    match BoilermatesFieldAttribute::extract(&mut attrs) {
        Err(Error::UnknownDirective(t)) => assert_eq!(t, "frobnicate"),
        _ => panic!("expected the first unknown directive"),
    }
}

#[test]
fn attr_for_parses_at_struct_level() {
    let mut attrs = attrs_of("#[boilermates(attr_for(B, \"deprecated\"))] struct X {}");
    let ds = BoilermatesStructAttribute::extract(&mut attrs).unwrap();
    assert_eq!(ds.len(), 1);
    let BoilermatesStructAttribute::AttrFor(af) = &ds[0];
    assert_eq!(af.target_struct, "B");
    assert!(af.attribute.path().is_ident("deprecated"));
}

#[test]
fn attr_for_with_one_argument_fails_arity() {
    let mut attrs = attrs_of("#[boilermates(attr_for(B))] struct X {}");
    match BoilermatesStructAttribute::extract(&mut attrs) {
        Err(Error::AttrForArgs(t)) => assert!(t.contains("attr_for") && t.contains("B")),
        _ => panic!("expected an arity error"),
    }
}

#[test]
fn attr_for_with_bare_second_argument_fails() {
    let mut attrs = attrs_of("#[boilermates(attr_for(B, deprecated))] struct X {}");
    match BoilermatesStructAttribute::extract(&mut attrs) {
        Err(Error::AttrForArgs(t)) => assert!(t.contains("deprecated")),
        _ => panic!("expected an argument-kind error"),
    }
}

#[test]
fn attr_for_bad_annotation_text_fails() {
    let mut attrs = attrs_of("#[boilermates(attr_for(B, \"= nonsense =\"))] struct X {}");
    match BoilermatesStructAttribute::extract(&mut attrs) {
        Err(Error::BadAnnotationText) => {},
        _ => panic!("expected a payload re-parse error"),
    }
}

#[test]
fn unknown_struct_directive_fails() {
    let mut attrs = attrs_of("#[boilermates(only_in(A))] struct X {}");
    match BoilermatesStructAttribute::extract(&mut attrs) {
        Err(Error::UnknownDirective(t)) => assert!(t.contains("only_in")),
        _ => panic!("expected an unknown-directive error"),
    }
}

#[test]
fn error_messages_name_the_offending_text() {
    assert_eq!(
        Error::UnknownDirective("frobnicate".to_string()).message(),
        "unknown boilermates attribute: `frobnicate`"
    );
    assert_eq!(
        Error::AttrForArgs("attr_for (B)".to_string()).message(),
        "`attr_for` must have two arguments, a target entity and an annotation text: `attr_for (B)`"
    );
    assert_eq!(Error::BadAnnotationText.message(), "can't parse attr");
    assert_eq!(
        Error::UnknownEntity("Z".to_string()).message(),
        "unknown entity: `Z`"
    );
}

#[test]
fn non_call_reserved_annotation_fails() {
    let mut attrs = attrs_of("#[boilermates] struct X {}");
    match BoilermatesFieldAttribute::extract(&mut attrs) {
        Err(Error::UnknownDirective(t)) => assert!(t.contains("boilermates")),
        _ => panic!("expected an unknown-directive error"),
    }
}

use boilermates::attributes::BoilermatesFieldAttribute;
use boilermates::attributes::BoilermatesNotIn;
use boilermates::attributes::BoilermatesOnlyIn;
use boilermates::fields::resolve_membership;
use boilermates::fields::BoilermatesField;

fn fields_of(src: &str) -> Vec<syn::Field> {
    let item: syn::DeriveInput = syn::parse_str(src).unwrap();
    match item.data {
        syn::Data::Struct(ds) => ds.fields.into_iter().collect(),
        _ => panic!("expected a struct"),
    }
}

fn names(v: &[String]) -> Vec<&str> {
    v.iter().map(|s| s.as_str()).collect()
}

fn all_three() -> Vec<String> {
    vec!["Main".to_string(), "B".to_string(), "C".to_string()]
}

fn only_in(l: &[&str]) -> BoilermatesFieldAttribute {
    BoilermatesFieldAttribute::OnlyIn(BoilermatesOnlyIn(
        l.iter().map(|s| s.to_string()).collect(),
    ))
}

fn not_in(l: &[&str]) -> BoilermatesFieldAttribute {
    BoilermatesFieldAttribute::NotIn(BoilermatesNotIn(l.iter().map(|s| s.to_string()).collect()))
}

#[test]
fn no_directives_yields_full_set_and_no_default() {
    let (m, d) = resolve_membership(&all_three(), &"Main".to_string(), vec![]);
    assert_eq!(names(&m), ["Main", "B", "C"]);
    assert!(!d);
}

#[test]
fn only_in_discards_prior_membership() {
    let ds = vec![not_in(&["B"]), only_in(&["C"])];
    let (m, _) = resolve_membership(&all_three(), &"Main".to_string(), ds);
    assert_eq!(names(&m), ["C"]);
}

#[test]
fn only_in_empty_list_empties_membership() {
    let (m, _) = resolve_membership(&all_three(), &"Main".to_string(), vec![only_in(&[])]);
    assert!(m.is_empty());
}

#[test]
fn not_in_after_only_in_subtracts() {
    let ds = vec![only_in(&["Main", "B"]), not_in(&["B"])];
    let (m, _) = resolve_membership(&all_three(), &"Main".to_string(), ds);
    assert_eq!(names(&m), ["Main"]);
}

#[test]
fn not_in_first_subtracts_from_full_set() {
    let (m, _) = resolve_membership(&all_three(), &"Main".to_string(), vec![not_in(&["B"])]);
    assert_eq!(names(&m), ["Main", "C"]);
}

#[test]
fn only_in_self_overrides_prior_directives() {
    let ds = vec![only_in(&["B", "C"]), BoilermatesFieldAttribute::OnlyInSelf];
    let (m, _) = resolve_membership(&all_three(), &"Main".to_string(), ds);
    assert_eq!(names(&m), ["Main"]);
}

#[test]
fn default_sets_flag_and_keeps_membership() {
    let (m, d) = resolve_membership(
        &all_three(),
        &"Main".to_string(),
        vec![BoilermatesFieldAttribute::Default],
    );
    assert_eq!(names(&m), ["Main", "B", "C"]);
    assert!(d);
}

#[test]
fn scenario_three_fields_three_entities() {
    let fields = fields_of(
        "struct Main { id: u32, #[boilermates(only_in(Main, B))] name: String, #[boilermates(not_in(C))] note: String }",
    );
    let parsed =
        BoilermatesField::parse_all(fields, all_three(), "Main".to_string()).unwrap();
    assert_eq!(parsed.len(), 3);
    assert_eq!(parsed[0].name(), "id");
    assert_eq!(names(&parsed[0].in_structs), ["Main", "B", "C"]);
    assert_eq!(parsed[1].name(), "name");
    assert_eq!(names(&parsed[1].in_structs), ["Main", "B"]);
    assert_eq!(parsed[2].name(), "note");
    assert_eq!(names(&parsed[2].in_structs), ["Main", "B"]);
    assert!(!parsed[0].default && !parsed[1].default && !parsed[2].default);
}

#[test]
fn parse_all_strips_reserved_annotations_only() {
    let fields = fields_of(
        "struct Main { #[boilermates(default)] #[serde(skip)] id: u32 }",
    );
    let parsed =
        BoilermatesField::parse_all(fields, all_three(), "Main".to_string()).unwrap();
    assert!(parsed[0].default);
    assert_eq!(parsed[0].definition.attrs.len(), 1);
    assert!(parsed[0].definition.attrs[0].path().is_ident("serde"));
}

#[test]
fn parse_all_aborts_on_bad_directive() {
    let fields = fields_of("struct Main { #[boilermates(frobnicate)] id: u32 }");
    match BoilermatesField::parse_all(fields, all_three(), "Main".to_string()) {
        Err(e) => assert!(e.message().contains("frobnicate")),
        Ok(_) => panic!("expected extraction to abort"),
    }
}

#[test]
fn directive_order_changes_the_result() {
    let forward = vec![only_in(&["Main", "B"]), not_in(&["B"])];
    let backward = vec![not_in(&["B"]), only_in(&["Main", "B"])];
    let (mf, _) = resolve_membership(&all_three(), &"Main".to_string(), forward);
    let (mb, _) = resolve_membership(&all_three(), &"Main".to_string(), backward);
    assert_eq!(names(&mf), ["Main"]);
    assert_eq!(names(&mb), ["Main", "B"]);
}

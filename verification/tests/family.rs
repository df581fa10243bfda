use boilermates::attributes::BoilermatesAttrFor;
use boilermates::attributes::BoilermatesStructAttribute;
use boilermates::attributes::Error;
use boilermates::fields::BoilermatesField;
use boilermates::output::parse_derived_names;
use boilermates::output::OutputField;
use boilermates::output::OutputStruct;
use boilermates::output::OutputStructs;

fn one_field(src: &str) -> syn::Field {
    let item: syn::DeriveInput = syn::parse_str(src).unwrap();
    match item.data {
        syn::Data::Struct(ds) => ds.fields.into_iter().next().unwrap(),
        _ => panic!("expected a struct"),
    }
}

fn field_named(name: &str) -> OutputField {
    let src = format!("struct X {{ {}: u32 }}", name);
    OutputField::new(one_field(&src), false)
}

fn family_main_b_c() -> OutputStructs {
    OutputStructs::initialize(
        "Main".to_string(),
        vec![],
        vec!["B".to_string(), "C".to_string()],
    )
}

#[test]
fn initialize_preserves_declaration_order() {
    let family = family_main_b_c();
    let names = family.names();
    assert_eq!(names, ["Main", "B", "C"]);
}

#[test]
fn initialize_seeds_template_annotations_and_empty_entities() {
    let item: syn::DeriveInput =
        syn::parse_str("#[derive(Debug)] struct Main { id: u32 }").unwrap();
    let family = OutputStructs::initialize(
        "Main".to_string(),
        item.attrs,
        vec!["B".to_string()],
    );
    assert_eq!(family.structs[0].attributes.len(), 1);
    assert!(family.structs[0].fields.is_empty());
    assert!(family.structs[1].attributes.is_empty());
    assert!(family.structs[1].fields.is_empty());
}

#[test]
fn get_answers_the_not_found_condition() {
    let family = family_main_b_c();
    assert!(family.get("B").is_some());
    assert!(family.get("C").unwrap().fields.is_empty());
    assert!(family.get("D").is_none());
}

#[test]
fn contains_and_get_mut_find_declared_entities() {
    let mut family = family_main_b_c();
    assert!(family.contains_entity("B"));
    assert!(!family.contains_entity("D"));
    family.get_mut("B").fields.push(field_named("id"));
    assert_eq!(family.structs[1].fields.len(), 1);
    assert!(family.structs[0].fields.is_empty());
    assert!(family.structs[2].fields.is_empty());
}

#[test]
fn push_field_rejects_unknown_entity() {
    let mut family = family_main_b_c();
    let r = family.push_field(&"D".to_string(), field_named("id"));
    match r {
        Err(Error::UnknownEntity(t)) => assert_eq!(t, "D"),
        _ => panic!("expected an unknown-entity error"),
    }
    assert!(family.push_field(&"C".to_string(), field_named("id")).is_ok());
    assert_eq!(family.structs[2].fields.len(), 1);
}

#[test]
fn apply_attr_for_appends_to_the_named_entity() {
    let item: syn::DeriveInput =
        syn::parse_str("#[boilermates(attr_for(B, \"deprecated\"))] struct Main {}").unwrap();
    let mut attrs = item.attrs;
    let ds = BoilermatesStructAttribute::extract(&mut attrs).unwrap();
    let mut family = family_main_b_c();
    let BoilermatesStructAttribute::AttrFor(af) = ds.into_iter().next().unwrap();
    family.apply_attr_for(af).unwrap();
    assert_eq!(family.structs[1].attributes.len(), 1);
    assert!(family.structs[1].attributes[0].path().is_ident("deprecated"));
    assert!(family.structs[0].attributes.is_empty());
}

#[test]
fn apply_attr_for_rejects_unknown_entity() {
    let item: syn::DeriveInput =
        syn::parse_str("#[deprecated] struct Main {}").unwrap();
    let mut family = family_main_b_c();
    let af = BoilermatesAttrFor {
        target_struct: "Z".to_string(),
        attribute: item.attrs.into_iter().next().unwrap(),
    };
    match family.apply_attr_for(af) {
        Err(Error::UnknownEntity(t)) => assert_eq!(t, "Z"),
        _ => panic!("expected an unknown-entity error"),
    }
}

#[test]
fn relation_queries_split_fields_by_name() {
    let a = OutputStruct {
        attributes: vec![],
        fields: vec![field_named("id"), field_named("name"), field_named("note")],
    };
    let b = OutputStruct { attributes: vec![], fields: vec![field_named("id")] };
    let missing = a.missing_fields_from(&b);
    let same = a.same_fields_as(&b);
    assert_eq!(missing.len(), 2);
    assert_eq!(missing[0].name(), "name");
    assert_eq!(missing[1].name(), "note");
    assert_eq!(same.len(), 1);
    assert_eq!(same[0].name(), "id");
    assert_eq!(missing.len() + same.len(), a.fields.len());
}

#[test]
fn relation_queries_are_not_commutative() {
    let a = OutputStruct {
        attributes: vec![],
        fields: vec![field_named("id"), field_named("name")],
    };
    let b = OutputStruct { attributes: vec![], fields: vec![field_named("id"), field_named("note")] };
    let a_missing: Vec<String> =
        a.missing_fields_from(&b).iter().map(|f| f.name().clone()).collect();
    let b_missing: Vec<String> =
        b.missing_fields_from(&a).iter().map(|f| f.name().clone()).collect();
    assert_eq!(a_missing, ["name"]);
    assert_eq!(b_missing, ["note"]);
}

#[test]
fn output_field_equality_reads_the_name_only() {
    let by_type_a = OutputField::new(one_field("struct X { count: u32 }"), false);
    let by_type_b = OutputField::new(one_field("struct X { count: String }"), true);
    let other = OutputField::new(one_field("struct X { total: u32 }"), false);
    assert!(by_type_a == by_type_b);
    assert!(by_type_a != other);
}

#[test]
fn output_field_from_resolved_field_keeps_name_and_default() {
    let f = BoilermatesField {
        definition: one_field("struct X { id: u32 }"),
        name: "id".to_string(),
        default: true,
        in_structs: vec![],
    };
    let out = OutputField::from(f);
    assert_eq!(out.name(), "id");
    assert!(out.default);
}

#[test]
fn parse_derived_names_reads_the_identifier_list() {
    let tokens: proc_macro2::TokenStream = "B, C".parse().unwrap();
    assert_eq!(parse_derived_names(&tokens).unwrap(), ["B", "C"]);
    let bad: proc_macro2::TokenStream = "B C".parse().unwrap();
    match parse_derived_names(&bad) {
        Err(Error::Malformed(_)) => {},
        _ => panic!("expected a malformed-list error"),
    }
}

#[test]
fn empty_family_holds_only_the_template() {
    let family = OutputStructs::initialize("Main".to_string(), vec![], vec![]);
    assert_eq!(family.names(), ["Main"]);
}

use boilermates::fields::BoilermatesField;

fn resolved_field(name: &str) -> BoilermatesField {
    let src = format!("struct X {{ {}: u32 }}", name);
    let item: syn::DeriveInput = syn::parse_str(&src).unwrap();
    let fields = match item.data {
        syn::Data::Struct(ds) => ds.fields.into_iter().collect(),
        _ => panic!("expected a struct"),
    };
    BoilermatesField::parse_all(fields, vec!["X".to_string()], "X".to_string())
        .unwrap()
        .into_iter()
        .next()
        .unwrap()
}

#[test]
fn trait_name_is_has_pascal_case() {
    assert_eq!(resolved_field("count").trait_name(), "HasCount");
    assert_eq!(resolved_field("is_active").trait_name(), "HasIsActive");
}

#[test]
fn neg_trait_name_is_has_no_pascal_case() {
    assert_eq!(resolved_field("count").neg_trait_name(), "HasNoCount");
    assert_eq!(resolved_field("is_active").neg_trait_name(), "HasNoIsActive");
}

#[test]
fn field_name_accessor_reads_the_identifier() {
    assert_eq!(resolved_field("note").name(), "note");
}

use moveos_types::account::AccountAddress;
use moveos_types::type_tag::{struct_tag_eq, type_tag_clone, type_tag_eq, StructTag, TypeTag};

fn addr(n: u128) -> AccountAddress {
    AccountAddress { high: 0, low: n }
}

fn tag(address: u128, module: &str, name: &str, params: Vec<TypeTag>) -> StructTag {
    StructTag { address: addr(address), module: module.to_string(), name: name.to_string(), type_params: params }
}

#[test]
fn primitive_tags_compare_by_kind() {
    assert!(type_tag_eq(&TypeTag::U8, &TypeTag::U8));
    assert!(!type_tag_eq(&TypeTag::U8, &TypeTag::U16));
    assert!(!type_tag_eq(&TypeTag::Address, &TypeTag::Signer));
}

#[test]
fn struct_tags_compare_every_part() {
    let a = tag(1, "string", "String", vec![]);
    assert!(struct_tag_eq(&a, &tag(1, "string", "String", vec![])));
    assert!(!struct_tag_eq(&a, &tag(2, "string", "String", vec![])));
    assert!(!struct_tag_eq(&a, &tag(1, "ascii", "String", vec![])));
    assert!(!struct_tag_eq(&a, &tag(1, "string", "Str", vec![])));
    assert!(!struct_tag_eq(&a, &tag(1, "string", "String", vec![TypeTag::U8])));
}

#[test]
fn nested_tags_compare_deeply() {
    let a = TypeTag::Vector(Box::new(TypeTag::Struct(Box::new(tag(2, "object", "ObjectEntity", vec![TypeTag::U64])))));
    let b = TypeTag::Vector(Box::new(TypeTag::Struct(Box::new(tag(2, "object", "ObjectEntity", vec![TypeTag::U64])))));
    let c = TypeTag::Vector(Box::new(TypeTag::Struct(Box::new(tag(2, "object", "ObjectEntity", vec![TypeTag::U128])))));
    assert!(type_tag_eq(&a, &b));
    assert!(!type_tag_eq(&a, &c));
    assert!(type_tag_eq(&a, &type_tag_clone(&a)));
}

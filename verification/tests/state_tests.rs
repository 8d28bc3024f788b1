use moveos_types::account::{AccountAddress, ObjectID};
use moveos_types::annotated::{AnnotatedMoveStruct, AnnotatedMoveValue, AnnotatedObject};
use moveos_types::move_traits::{MoveStructType, MoveType, PlaceholderStruct};
use moveos_types::object::{MoveAsciiString, MoveString, ObjectEntity};
use moveos_types::state::{AnnotatedState, State, StateError, TableTypeInfo};
use moveos_types::type_tag::{struct_tag_eq, type_tag_eq, StructTag, TypeTag};

fn addr(n: u128) -> AccountAddress {
    AccountAddress { high: 0, low: n }
}

fn tag(address: u128, module: &str, name: &str, params: Vec<TypeTag>) -> StructTag {
    StructTag { address: addr(address), module: module.to_string(), name: name.to_string(), type_params: params }
}

fn struct_type(t: StructTag) -> TypeTag {
    TypeTag::Struct(Box::new(t))
}

fn object_of(inner: StructTag) -> TypeTag {
    struct_type(tag(2, "object", "ObjectEntity", vec![struct_type(inner)]))
}

#[test]
fn new_state_keeps_value_and_type() {
    let state = State::new(vec![1, 2, 3], TypeTag::U64);
    assert_eq!(state.value, vec![1, 2, 3]);
    assert!(type_tag_eq(state.value_type(), &TypeTag::U64));
    assert!(state.match_type(&TypeTag::U64));
    assert!(!state.match_type(&TypeTag::U8));
}

#[test]
fn match_struct_type_needs_that_struct() {
    let state = State::new(vec![], struct_type(tag(1, "string", "String", vec![])));
    assert!(state.match_struct_type(&tag(1, "string", "String", vec![])));
    assert!(!state.match_struct_type(&tag(1, "ascii", "String", vec![])));
    let primitive = State::new(vec![], TypeTag::Bool);
    assert!(!primitive.match_struct_type(&tag(1, "string", "String", vec![])));
}

#[test]
fn object_state_gives_its_value_type() {
    let state = State::new(vec![], object_of(tag(3, "coin", "Coin", vec![TypeTag::U8])));
    assert!(state.is_object());
    let inner = state.get_object_struct_tag().expect("an object");
    assert!(struct_tag_eq(&inner, &tag(3, "coin", "Coin", vec![TypeTag::U8])));
}

#[test]
fn non_object_states_give_none() {
    let plain = State::new(vec![], struct_type(tag(3, "coin", "Coin", vec![])));
    assert!(!plain.is_object());
    assert!(plain.get_object_struct_tag().is_none());
    let wrong_address = State::new(vec![], struct_type(tag(1, "object", "ObjectEntity", vec![struct_type(tag(3, "coin", "Coin", vec![]))])));
    assert!(!wrong_address.is_object());
    let primitive = State::new(vec![], TypeTag::Address);
    assert!(!primitive.is_object());
}

#[test]
fn check_move_state_type_compares_the_struct_tag() {
    let string_state = State::new(vec![0], struct_type(tag(1, "string", "String", vec![])));
    assert_eq!(string_state.check_move_state_type::<MoveString>(), Ok(()));
    assert_eq!(string_state.check_move_state_type::<MoveAsciiString>(), Err(StateError::StructTypeMismatch));
    let primitive = State::new(vec![0], TypeTag::U8);
    assert_eq!(primitive.check_move_state_type::<MoveString>(), Err(StateError::NotStructType));
    let object = State::new(vec![], object_of(tag(1, "string", "String", vec![])));
    assert_eq!(object.check_move_state_type::<ObjectEntity<MoveString>>(), Ok(()));
    assert_eq!(object.check_move_state_type::<ObjectEntity<MoveAsciiString>>(), Err(StateError::StructTypeMismatch));
}

fn annotated_struct() -> AnnotatedMoveStruct {
    AnnotatedMoveStruct { abilities: 0, type_: tag(3, "coin", "Coin", vec![]), value: vec![("value".to_string(), AnnotatedMoveValue::U64(7))] }
}

#[test]
fn annotated_object_needs_an_object_state() {
    let not_object = AnnotatedState::new(State::new(vec![], TypeTag::U64), AnnotatedMoveValue::U64(7));
    assert_eq!(not_object.into_annotated_object().err(), Some(StateError::NotObject));
    let not_struct = AnnotatedState::new(State::new(vec![], object_of(tag(3, "coin", "Coin", vec![]))), AnnotatedMoveValue::U64(7));
    assert_eq!(not_struct.into_annotated_object().err(), Some(StateError::NotStructValue));
    // A decoded struct that is not an object entity's.
    let not_entity = AnnotatedState::new(State::new(vec![], object_of(tag(3, "coin", "Coin", vec![]))), AnnotatedMoveValue::Struct(annotated_struct()));
    assert_eq!(not_entity.into_annotated_object().err(), Some(StateError::InvalidObjectEntity));
    let object = AnnotatedState::new(State::new(vec![], object_of(tag(3, "coin", "Coin", vec![]))), AnnotatedMoveValue::Struct(entity_struct()));
    let o = object.into_annotated_object().expect("an object");
    assert_eq!(o.id, ObjectID(addr(9)));
    assert_eq!(o.owner, addr(5));
    assert_eq!(o.value.value.len(), 1);
    assert!(struct_tag_eq(&o.value.type_, &tag(3, "coin", "Coin", vec![])));
}

fn entity_struct() -> AnnotatedMoveStruct {
    let id = AnnotatedMoveStruct {
        abilities: 0,
        type_: tag(2, "object", "ObjectID", vec![]),
        value: vec![("id".to_string(), AnnotatedMoveValue::Address(addr(9)))],
    };
    AnnotatedMoveStruct {
        abilities: 0,
        type_: tag(2, "object", "ObjectEntity", vec![struct_type(tag(3, "coin", "Coin", vec![]))]),
        value: vec![
            ("id".to_string(), AnnotatedMoveValue::Struct(id)),
            ("owner".to_string(), AnnotatedMoveValue::Address(addr(5))),
            ("value".to_string(), AnnotatedMoveValue::Struct(annotated_struct())),
        ],
    }
}

#[test]
fn object_entity_structs_split_into_id_owner_and_value() {
    let o = AnnotatedObject::new_from_annotated_struct(entity_struct()).expect("an object");
    assert_eq!(o.id, ObjectID(addr(9)));
    assert_eq!(o.owner, addr(5));
    let mut wrong_owner = entity_struct();
    wrong_owner.value[1].1 = AnnotatedMoveValue::U8(1);
    assert_eq!(AnnotatedObject::new_from_annotated_struct(wrong_owner).err(), Some(StateError::InvalidObjectEntity));
    let mut short = entity_struct();
    short.value.truncate(2);
    assert_eq!(AnnotatedObject::new_from_annotated_struct(short).err(), Some(StateError::InvalidObjectEntity));
}

#[test]
fn table_type_info_keeps_key_type() {
    let info = TableTypeInfo::new(TypeTag::Address);
    assert!(type_tag_eq(&info.key_type, &TypeTag::Address));
}

#[test]
fn struct_types_name_their_tags() {
    assert!(struct_tag_eq(&MoveString::struct_tag(), &tag(1, "string", "String", vec![])));
    assert!(struct_tag_eq(&MoveAsciiString::struct_tag(), &tag(1, "ascii", "String", vec![])));
    assert!(struct_tag_eq(&ObjectID::struct_tag(), &tag(2, "object", "ObjectID", vec![])));
    let entity = ObjectEntity::<MoveString>::struct_tag();
    assert!(struct_tag_eq(&entity, &tag(2, "object", "ObjectEntity", vec![struct_type(tag(1, "string", "String", vec![]))])));
    assert!(MoveString::struct_tag_match(&tag(1, "string", "String", vec![])));
    assert!(!MoveString::struct_tag_match(&tag(1, "string", "String", vec![TypeTag::U8])));
    assert!(ObjectEntity::<PlaceholderStruct>::struct_tag_match_without_type_param(&tag(2, "object", "ObjectEntity", vec![TypeTag::U8])));
    assert!(!ObjectEntity::<PlaceholderStruct>::struct_tag_match_without_type_param(&tag(2, "object", "Object", vec![])));
    assert_eq!(PlaceholderStruct::struct_identifier(), "PlaceholderStruct");
    assert_eq!(PlaceholderStruct::module_identifier(), "placeholder");
    assert_eq!(PlaceholderStruct::module_address(), AccountAddress::zero());
}

#[test]
fn primitive_types_name_their_tags() {
    assert!(type_tag_eq(&u8::type_tag(), &TypeTag::U8));
    assert!(type_tag_eq(&u16::type_tag(), &TypeTag::U16));
    assert!(type_tag_eq(&u32::type_tag(), &TypeTag::U32));
    assert!(type_tag_eq(&u64::type_tag(), &TypeTag::U64));
    assert!(type_tag_eq(&u128::type_tag(), &TypeTag::U128));
    assert!(type_tag_eq(&bool::type_tag(), &TypeTag::Bool));
    assert!(type_tag_eq(&AccountAddress::type_tag(), &TypeTag::Address));
    assert!(type_tag_eq(&<Vec<u8>>::type_tag(), &TypeTag::Vector(Box::new(TypeTag::U8))));
    assert!(u64::type_tag_match(&TypeTag::U64));
    assert!(!u64::type_tag_match(&TypeTag::U32));
    assert!(MoveString::type_tag_match(&struct_type(tag(1, "string", "String", vec![]))));
}

use moveos_types::account::{AccountAddress, ObjectID};
use moveos_types::annotated::{AnnotatedMoveStruct, AnnotatedMoveValue, AnnotatedObject};
use moveos_types::event_filter::{EventFilter, EventFilterView};
use moveos_types::move_traits::U256;
use moveos_types::transaction::{AnnotatedEvent, Event, EventID, FunctionCall, FunctionId, ModuleId, MoveAction, ScriptCall, TypeInfo};
use moveos_types::type_tag::{struct_tag_eq, type_tag_eq, StructTag, TypeTag};
use moveos_types::views::{
    AnnotatedMoveStructView, AnnotatedMoveValueView, AnnotatedObjectView, EventView, FunctionCallView, MoveActionTypeView,
    MoveActionView, ScriptCallView, SpecificStructView, TypeInfoView,
};

fn addr(n: u128) -> AccountAddress {
    AccountAddress { high: 0, low: n }
}

fn tag(address: u128, module: &str, name: &str) -> StructTag {
    StructTag { address: addr(address), module: module.to_string(), name: name.to_string(), type_params: vec![] }
}

fn annotated(t: StructTag, fields: Vec<(&str, AnnotatedMoveValue)>) -> AnnotatedMoveStruct {
    AnnotatedMoveStruct { abilities: 3, type_: t, value: fields.into_iter().map(|(n, v)| (n.to_string(), v)).collect() }
}

#[test]
fn strings_get_a_view_of_their_own() {
    let s = annotated(tag(1, "string", "String"), vec![("bytes", AnnotatedMoveValue::Bytes(b"hi".to_vec()))]);
    match SpecificStructView::try_from_annotated(s) {
        Some(SpecificStructView::MoveString(m)) => assert_eq!(m.bytes, b"hi".to_vec()),
        other => panic!("unexpected {:?}", other),
    }
    let a = annotated(tag(1, "ascii", "String"), vec![("bytes", AnnotatedMoveValue::Bytes(b"ok".to_vec()))]);
    match SpecificStructView::try_from_annotated(a) {
        Some(SpecificStructView::MoveAsciiString(m)) => assert_eq!(m.bytes, b"ok".to_vec()),
        other => panic!("unexpected {:?}", other),
    }
    let id = annotated(tag(2, "object", "ObjectID"), vec![("id", AnnotatedMoveValue::Address(addr(9)))]);
    match SpecificStructView::try_from_annotated(id) {
        Some(SpecificStructView::ObjectID(o)) => assert_eq!(o, ObjectID(addr(9))),
        other => panic!("unexpected {:?}", other),
    }
}

#[test]
fn other_structs_get_no_view_of_their_own() {
    let coin = annotated(tag(3, "coin", "Coin"), vec![("value", AnnotatedMoveValue::U64(5))]);
    assert!(SpecificStructView::try_from_annotated(coin).is_none());
    // A string type whose field does not hold bytes.
    let odd = annotated(tag(1, "string", "String"), vec![("bytes", AnnotatedMoveValue::U8(1))]);
    assert!(SpecificStructView::try_from_annotated(odd).is_none());
    let empty = annotated(tag(2, "object", "ObjectID"), vec![]);
    assert!(SpecificStructView::try_from_annotated(empty).is_none());
}

#[test]
fn values_are_shown_field_by_field() {
    let inner_string = annotated(tag(1, "string", "String"), vec![("bytes", AnnotatedMoveValue::Bytes(b"n".to_vec()))]);
    let coin = annotated(
        tag(3, "coin", "Coin"),
        vec![
            ("value", AnnotatedMoveValue::U64(u64::MAX)),
            ("name", AnnotatedMoveValue::Struct(inner_string)),
            ("tags", AnnotatedMoveValue::Vector(TypeTag::U16, vec![AnnotatedMoveValue::U16(1), AnnotatedMoveValue::U16(2)])),
            ("big", AnnotatedMoveValue::U256(U256 { high: 1, low: 2 })),
        ],
    );
    match AnnotatedMoveValueView::from(AnnotatedMoveValue::Struct(coin)) {
        AnnotatedMoveValueView::Struct(view) => {
            assert_eq!(view.abilities, 3);
            assert!(struct_tag_eq(&view.type_, &tag(3, "coin", "Coin")));
            assert_eq!(view.value.len(), 4);
            let names: Vec<String> = view.value.entries().iter().map(|(k, _)| k.clone()).collect();
            assert_eq!(names, vec!["big", "name", "tags", "value"]);
            assert!(matches!(view.value.get(&"value".to_string()), Some(AnnotatedMoveValueView::U64(u64::MAX))));
            match view.value.get(&"name".to_string()).unwrap() {
                AnnotatedMoveValueView::SpecificStruct(SpecificStructView::MoveString(m)) => assert_eq!(m.bytes, b"n".to_vec()),
                other => panic!("unexpected {:?}", other),
            }
            match view.value.get(&"tags".to_string()).unwrap() {
                AnnotatedMoveValueView::Vector(items) => {
                    assert_eq!(items.len(), 2);
                    assert!(matches!(items[0], AnnotatedMoveValueView::U16(1)));
                    assert!(matches!(items[1], AnnotatedMoveValueView::U16(2)));
                },
                other => panic!("unexpected {:?}", other),
            }
            assert!(matches!(view.value.get(&"big".to_string()), Some(AnnotatedMoveValueView::U256(U256 { high: 1, low: 2 }))));
        },
        other => panic!("unexpected {:?}", other),
    }
}

#[test]
fn primitive_values_are_shown_as_they_are() {
    assert!(matches!(AnnotatedMoveValueView::from(AnnotatedMoveValue::U8(7)), AnnotatedMoveValueView::U8(7)));
    assert!(matches!(AnnotatedMoveValueView::from(AnnotatedMoveValue::Bool(true)), AnnotatedMoveValueView::Bool(true)));
    assert!(matches!(AnnotatedMoveValueView::from(AnnotatedMoveValue::U128(9)), AnnotatedMoveValueView::U128(9)));
    assert!(matches!(AnnotatedMoveValueView::from(AnnotatedMoveValue::U32(9)), AnnotatedMoveValueView::U32(9)));
    match AnnotatedMoveValueView::from(AnnotatedMoveValue::Address(addr(5))) {
        AnnotatedMoveValueView::Address(a) => assert_eq!(a, addr(5)),
        other => panic!("unexpected {:?}", other),
    }
    match AnnotatedMoveValueView::from(AnnotatedMoveValue::Bytes(vec![1, 2])) {
        AnnotatedMoveValueView::Bytes(b) => assert_eq!(b, vec![1, 2]),
        other => panic!("unexpected {:?}", other),
    }
}

#[test]
fn objects_are_shown_with_their_value() {
    let object = AnnotatedObject {
        id: ObjectID(addr(4)),
        owner: addr(5),
        value: annotated(tag(3, "coin", "Coin"), vec![("value", AnnotatedMoveValue::U64(1))]),
    };
    let view = AnnotatedObjectView::from(object);
    assert_eq!(view.id, ObjectID(addr(4)));
    assert_eq!(view.owner, addr(5));
    assert_eq!(view.value.value.len(), 1);
    let s = AnnotatedMoveStructView::from(annotated(tag(3, "coin", "Coin"), vec![]));
    assert_eq!(s.value.len(), 0);
}

fn script() -> ScriptCall {
    ScriptCall { code: vec![0xa1, 0x1c], ty_args: vec![TypeTag::U8], args: vec![vec![1], vec![2, 3]] }
}

fn function() -> FunctionCall {
    FunctionCall {
        function_id: FunctionId { module_id: ModuleId { address: addr(1), name: "coin".to_string() }, function_name: "transfer".to_string() },
        ty_args: vec![],
        args: vec![vec![4]],
    }
}

#[test]
fn actions_round_trip_through_their_views() {
    let view = MoveActionView::from(MoveAction::Script(script()));
    assert!(view.function_call.is_none() && view.module_bundle.is_none());
    match MoveAction::from(view) {
        MoveAction::Script(c) => {
            assert_eq!(c.code, vec![0xa1, 0x1c]);
            assert_eq!(c.args, vec![vec![1], vec![2, 3]]);
            assert!(type_tag_eq(&c.ty_args[0], &TypeTag::U8));
        },
        other => panic!("unexpected {:?}", other),
    }
    let view = MoveActionView::from(MoveAction::Function(function()));
    assert!(view.script_call.is_none() && view.module_bundle.is_none());
    match MoveAction::from(view) {
        MoveAction::Function(c) => {
            assert_eq!(c.function_id.function_name, "transfer");
            assert_eq!(c.function_id.module_id.name, "coin");
            assert_eq!(c.args, vec![vec![4]]);
        },
        other => panic!("unexpected {:?}", other),
    }
    let view = MoveActionView::from(MoveAction::ModuleBundle(vec![vec![9, 9]]));
    assert_eq!(view.module_bundle, Some(vec![vec![9, 9]]));
    assert!(matches!(MoveAction::from(view), MoveAction::ModuleBundle(m) if m == vec![vec![9, 9]]));
}

#[test]
fn action_views_read_script_first() {
    let view = MoveActionView {
        function_call: Some(FunctionCallView::from(function())),
        script_call: Some(ScriptCallView::from(script())),
        module_bundle: Some(vec![]),
    };
    assert!(matches!(MoveAction::from(view), MoveAction::Script(_)));
    let view = MoveActionView { function_call: Some(FunctionCallView::from(function())), script_call: None, module_bundle: Some(vec![]) };
    assert!(matches!(MoveAction::from(view), MoveAction::Function(_)));
}

#[test]
fn action_types_name_the_kind() {
    assert_eq!(MoveActionTypeView::from(MoveAction::Script(script())), MoveActionTypeView::ScriptCall);
    assert_eq!(MoveActionTypeView::from(MoveAction::Function(function())), MoveActionTypeView::FunctionCall);
    assert_eq!(MoveActionTypeView::from(MoveAction::ModuleBundle(vec![])), MoveActionTypeView::ModuleBundle);
}

#[test]
fn calls_round_trip_through_their_views() {
    let back = ScriptCall::from(ScriptCallView::from(script()));
    assert_eq!(back.code, script().code);
    assert_eq!(back.args, script().args);
    let back = FunctionCall::from(FunctionCallView::from(function()));
    assert_eq!(back.args, function().args);
    assert_eq!(back.function_id.module_id.address, addr(1));
}

fn event() -> Event {
    Event {
        event_id: EventID { event_handle_id: ObjectID(addr(8)), event_seq: 3 },
        type_tag: TypeTag::Struct(Box::new(tag(3, "coin", "Minted"))),
        event_data: vec![1, 2],
        event_index: 4,
    }
}

#[test]
fn events_round_trip_through_their_views() {
    let view = EventView::from(event());
    assert!(view.decoded_event_data.is_none());
    assert_eq!(view.event_index, 4);
    let back = Event::from(view);
    assert_eq!(back.event_id, event().event_id);
    assert_eq!(back.event_data, vec![1, 2]);
    assert_eq!(back.event_index, 4);
    assert!(type_tag_eq(&back.type_tag, &event().type_tag));
}

#[test]
fn annotated_events_are_shown_decoded() {
    let e = AnnotatedEvent { event: event(), decoded_event_data: annotated(tag(3, "coin", "Minted"), vec![("amount", AnnotatedMoveValue::U64(10))]) };
    let view = EventView::from_annotated_event(e);
    let decoded = view.decoded_event_data.expect("decoded data");
    assert_eq!(decoded.value.len(), 1);
    assert!(matches!(decoded.value.get(&"amount".to_string()), Some(AnnotatedMoveValueView::U64(10))));
}

#[test]
fn type_infos_round_trip_through_their_views() {
    let info = TypeInfo { account_address: addr(1), module_name: b"string".to_vec(), struct_name: b"String".to_vec() };
    let view = TypeInfoView::from(info);
    assert_eq!(view.module_name, b"string".to_vec());
    let back = TypeInfo::from(view);
    assert_eq!(back.account_address, addr(1));
    assert_eq!(back.struct_name, b"String".to_vec());
}

#[test]
fn event_filters_keep_their_shape() {
    let view = EventFilterView::And(
        Box::new(EventFilterView::MoveEventType(TypeTag::U8)),
        Box::new(EventFilterView::Any(vec![
            EventFilterView::MoveEventField { path: "a.b".to_string(), value: serde_json::Value::from(3) },
            EventFilterView::All(vec![]),
            EventFilterView::Or(Box::new(EventFilterView::MoveEventType(TypeTag::Bool)), Box::new(EventFilterView::All(vec![]))),
        ])),
    );
    match EventFilter::from(view) {
        EventFilter::And(left, right) => {
            assert!(matches!(*left, EventFilter::MoveEventType(TypeTag::U8)));
            match *right {
                EventFilter::Any(items) => {
                    assert_eq!(items.len(), 3);
                    match &items[0] {
                        EventFilter::MoveEventField { path, value } => {
                            assert_eq!(path, "a.b");
                            assert_eq!(value, &serde_json::Value::from(3));
                        },
                        other => panic!("unexpected {:?}", other),
                    }
                    assert!(matches!(&items[1], EventFilter::All(v) if v.is_empty()));
                    assert!(matches!(&items[2], EventFilter::Or(_, _)));
                },
                other => panic!("unexpected {:?}", other),
            }
        },
        other => panic!("unexpected {:?}", other),
    }
}

#[test]
fn a_repeated_field_name_shows_its_last_value() {
    let s = annotated(tag(3, "pair", "Pair"), vec![("x", AnnotatedMoveValue::U8(1)), ("x", AnnotatedMoveValue::U8(2))]);
    let view = AnnotatedMoveStructView::from(s);
    assert_eq!(view.value.len(), 1);
    assert!(matches!(view.value.get(&"x".to_string()), Some(AnnotatedMoveValueView::U8(2))));
}

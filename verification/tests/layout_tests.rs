use moveos_types::layout::{type_layout_match, MoveFieldLayout, MoveStructLayout, MoveTypeLayout};
use moveos_types::move_traits::{MoveState, MoveStructState, U256};
use moveos_types::account::{AccountAddress, ObjectID};
use moveos_types::object::MoveString;

fn runtime(fields: Vec<MoveTypeLayout>) -> MoveTypeLayout {
    MoveTypeLayout::Struct(MoveStructLayout::Runtime(fields))
}

#[test]
fn primitives_match_themselves_only() {
    assert!(type_layout_match(&MoveTypeLayout::U64, &MoveTypeLayout::U64));
    assert!(type_layout_match(&MoveTypeLayout::Signer, &MoveTypeLayout::Signer));
    assert!(!type_layout_match(&MoveTypeLayout::U64, &MoveTypeLayout::U128));
    assert!(!type_layout_match(&MoveTypeLayout::Address, &MoveTypeLayout::Signer));
}

#[test]
fn vectors_match_by_element() {
    let a = MoveTypeLayout::Vector(Box::new(MoveTypeLayout::U8));
    let b = MoveTypeLayout::Vector(Box::new(MoveTypeLayout::U8));
    let c = MoveTypeLayout::Vector(Box::new(MoveTypeLayout::U16));
    assert!(type_layout_match(&a, &b));
    assert!(!type_layout_match(&a, &c));
    assert!(!type_layout_match(&a, &MoveTypeLayout::U8));
}

#[test]
fn structs_match_field_by_field() {
    let a = runtime(vec![MoveTypeLayout::Address, runtime(vec![MoveTypeLayout::Bool])]);
    let b = runtime(vec![MoveTypeLayout::Address, runtime(vec![MoveTypeLayout::Bool])]);
    let c = runtime(vec![MoveTypeLayout::Address, runtime(vec![MoveTypeLayout::U8])]);
    let shorter = runtime(vec![MoveTypeLayout::Address]);
    assert!(type_layout_match(&a, &b));
    assert!(!type_layout_match(&a, &c));
    assert!(!type_layout_match(&a, &shorter));
    assert!(type_layout_match(&runtime(vec![]), &runtime(vec![])));
}

#[test]
fn first_mismatch_stops_the_comparison() {
    // The second field pair is decorated, but the first pair already differs.
    let decorated = MoveTypeLayout::Struct(MoveStructLayout::WithFields(vec![MoveFieldLayout {
        name: "x".to_string(),
        layout: MoveTypeLayout::U8,
    }]));
    let a = runtime(vec![MoveTypeLayout::U8, decorated]);
    let b = runtime(vec![MoveTypeLayout::U16, MoveTypeLayout::U8]);
    assert!(!type_layout_match(&a, &b));
}

#[test]
fn decorated_struct_against_primitive_is_no_match() {
    let decorated = MoveTypeLayout::Struct(MoveStructLayout::WithFields(vec![]));
    assert!(!type_layout_match(&decorated, &MoveTypeLayout::U8));
}

#[test]
fn move_states_match_their_own_layout() {
    assert!(u8::type_layout_match(&MoveTypeLayout::U8));
    assert!(!u8::type_layout_match(&MoveTypeLayout::U16));
    assert!(U256::type_layout_match(&MoveTypeLayout::U256));
    assert!(AccountAddress::type_layout_match(&MoveTypeLayout::Address));
    assert!(<Vec<u64>>::type_layout_match(&MoveTypeLayout::Vector(Box::new(MoveTypeLayout::U64))));
    assert!(ObjectID::type_layout_match(&runtime(vec![MoveTypeLayout::Address])));
    assert!(MoveString::type_layout_match(&runtime(vec![MoveTypeLayout::Vector(Box::new(MoveTypeLayout::U8))])));
    assert!(!MoveString::type_layout_match(&runtime(vec![MoveTypeLayout::U8])));
    match MoveString::struct_layout() {
        MoveStructLayout::Runtime(fields) => assert_eq!(fields.len(), 1),
        MoveStructLayout::WithFields(_) => panic!("expected a plain layout"),
    }
}

#[test]
fn matching_is_symmetric_and_transitive_on_examples() {
    let layouts = vec![
        MoveTypeLayout::U8,
        MoveTypeLayout::Vector(Box::new(MoveTypeLayout::U8)),
        runtime(vec![MoveTypeLayout::U8]),
        runtime(vec![MoveTypeLayout::U8, MoveTypeLayout::Address]),
        runtime(vec![]),
    ];
    for a in &layouts {
        assert!(type_layout_match(a, a));
        for b in &layouts {
            assert_eq!(type_layout_match(a, b), type_layout_match(b, a));
            for c in &layouts {
                if type_layout_match(a, b) && type_layout_match(b, c) {
                    assert!(type_layout_match(a, c));
                }
            }
        }
    }
}

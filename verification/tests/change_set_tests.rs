use moveos_types::account::{AccountAddress, ObjectID};
use moveos_types::change_set::{Op, StateChangeSet, StateSet, TableChange};
use moveos_types::keyed_map::KeyedMap;
use moveos_types::state::State;
use moveos_types::type_tag::TypeTag;

fn id(n: u128) -> ObjectID {
    ObjectID(AccountAddress { high: 0, low: n })
}

fn state(v: u8) -> State {
    State::new(vec![v], TypeTag::U8)
}

#[test]
fn add_op_records_the_op_under_its_table_and_key() {
    let mut changes = StateChangeSet::default();
    changes.add_op(id(1), vec![1], Op::New(state(1)));
    changes.add_op(id(1), vec![2], Op::Delete);
    changes.add_op(id(2), vec![1], Op::Modify(state(5)));
    assert_eq!(changes.changes.len(), 2);
    let table1 = changes.changes.get(&id(1)).expect("table 1 changed");
    assert_eq!(table1.entries.len(), 2);
    assert!(matches!(table1.entries.get(&vec![1]), Some(Op::New(s)) if s.value == vec![1]));
    assert!(matches!(table1.entries.get(&vec![2]), Some(Op::Delete)));
    assert_eq!(table1.size_increment, 0);
    let table2 = changes.changes.get(&id(2)).expect("table 2 changed");
    assert!(matches!(table2.entries.get(&vec![1]), Some(Op::Modify(s)) if s.value == vec![5]));
    assert!(changes.changes.get(&id(3)).is_none());
}

#[test]
fn a_later_op_replaces_the_earlier_one() {
    let mut changes = StateChangeSet::default();
    changes.add_op(id(1), vec![7], Op::New(state(1)));
    changes.add_op(id(1), vec![7], Op::Delete);
    let table = changes.changes.get(&id(1)).expect("table changed");
    assert_eq!(table.entries.len(), 1);
    assert!(matches!(table.entries.get(&vec![7]), Some(Op::Delete)));
}

#[test]
fn get_or_insert_keeps_recorded_changes() {
    let mut changes = StateChangeSet::default();
    {
        let table = changes.get_or_insert_table_change(id(4));
        assert_eq!(table.entries.len(), 0);
        table.size_increment = 2;
    }
    changes.add_op(id(4), vec![1], Op::Delete);
    let table = changes.get_or_insert_table_change(id(4));
    assert_eq!(table.size_increment, 2);
    assert_eq!(table.entries.len(), 1);
    assert_eq!(changes.changes.len(), 1);
    let fresh = TableChange::default();
    assert_eq!(fresh.size_increment, 0);
}

#[test]
fn state_set_insert_returns_the_previous_updates() {
    let mut set: StateSet<Vec<u8>> = StateSet::new();
    assert_eq!(set.insert(id(1), vec![1]), None);
    assert_eq!(set.insert(id(2), vec![2]), None);
    assert_eq!(set.insert(id(1), vec![3]), Some(vec![1]));
    assert_eq!(set.state_sets.get(&id(1)), Some(&vec![3]));
    assert_eq!(set.state_sets.len(), 2);
}

#[test]
fn keyed_map_keeps_keys_in_order() {
    let mut m: KeyedMap<Vec<u8>, u32> = KeyedMap::new();
    m.insert(vec![2], 20);
    m.insert(vec![1, 0], 15);
    m.insert(vec![1], 10);
    m.insert(vec![], 5);
    m.insert(vec![2], 21);
    let keys: Vec<Vec<u8>> = m.entries().iter().map(|(k, _)| k.clone()).collect();
    assert_eq!(keys, vec![vec![], vec![1], vec![1, 0], vec![2]]);
    assert_eq!(m.get(&vec![2]), Some(&21));
    assert!(m.contains_key(&vec![1]));
    assert!(!m.contains_key(&vec![3]));
    assert_eq!(*m.get_or_insert_with(vec![3], 30), 30);
    assert_eq!(*m.get_or_insert_with(vec![3], 99), 30);
}

#[test]
fn tables_are_kept_in_id_order() {
    let mut changes = StateChangeSet::default();
    changes.add_op(ObjectID(AccountAddress { high: 1, low: 0 }), vec![1], Op::Delete);
    changes.add_op(id(7), vec![1], Op::Delete);
    changes.add_op(id(3), vec![1], Op::Delete);
    let ids: Vec<ObjectID> = changes.changes.entries().iter().map(|(k, _)| *k).collect();
    assert_eq!(ids, vec![id(3), id(7), ObjectID(AccountAddress { high: 1, low: 0 })]);
}

use vstd::prelude::*;
use crate::account::{AccountAddress, ObjectID};
use crate::type_tag::{TypeTag, StructTag};
use crate::move_traits::U256;

verus! {

/// A Move value decoded by its type, with the names of struct fields.
#[derive(Debug)]
pub enum AnnotatedMoveValue {
    U8(u8),
    U64(u64),
    U128(u128),
    Bool(bool),
    Address(AccountAddress),
    /// A vector, with the type of its elements.
    Vector(TypeTag, Vec<AnnotatedMoveValue>),
    /// A `vector<u8>`.
    Bytes(Vec<u8>),
    Struct(AnnotatedMoveStruct),
    U16(u16),
    U32(u32),
    U256(U256),
}

/// A Move struct value decoded by its type: its abilities (as the bit set of
/// the Move ability set), its type and its fields in declaration order.
#[derive(Debug)]
pub struct AnnotatedMoveStruct {
    pub abilities: u8,
    pub type_: StructTag,
    pub value: Vec<(String, AnnotatedMoveValue)>,
}

/// An object in the state store, with its value decoded.
#[derive(Debug)]
pub struct AnnotatedObject {
    pub id: ObjectID,
    pub owner: AccountAddress,
    pub value: AnnotatedMoveStruct,
}


/// The bytes held by a struct's last field, when that field is a `vector<u8>`.
pub open spec fn last_field_bytes(s: AnnotatedMoveStruct) -> Option<Seq<u8>> {
    if s.value.len() == 0 {
        None
    } else {
        match s.value@.last().1 {
            AnnotatedMoveValue::Bytes(b) => Some(b@),
            _ => None,
        }
    }
}

/// The address held by a struct's last field, when that field is an address.
pub open spec fn last_field_address(s: AnnotatedMoveStruct) -> Option<AccountAddress> {
    if s.value.len() == 0 {
        None
    } else {
        match s.value@.last().1 {
            AnnotatedMoveValue::Address(a) => Some(a),
            _ => None,
        }
    }
}

/// A copy of the bytes held by the struct's last field, when that field is a `vector<u8>`.
pub fn last_field_bytes_of(s: &AnnotatedMoveStruct) -> (r: Option<Vec<u8>>)
    ensures
        match r {
            Some(b) => last_field_bytes(*s) == Some(b@),
            None => last_field_bytes(*s) is None,
        },
{
    let n = s.value.len();
    if n == 0 {
        return None;
    }
    match &s.value[n - 1].1 {
        AnnotatedMoveValue::Bytes(b) => {
            let copy = b.clone();
            assert(copy@ =~= b@);
            Some(copy)
        },
        _ => None,
    }
}

/// The address held by the struct's last field, when that field is an address.
pub fn last_field_address_of(s: &AnnotatedMoveStruct) -> (r: Option<AccountAddress>)
    ensures
        r == last_field_address(*s),
{
    let n = s.value.len();
    if n == 0 {
        return None;
    }
    match &s.value[n - 1].1 {
        AnnotatedMoveValue::Address(a) => Some(*a),
        _ => None,
    }
}

} // verus!

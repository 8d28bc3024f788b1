use vstd::prelude::*;
use crate::account::{AccountAddress, ObjectID, short_address, core_code_address, moveos_std_address};
use crate::type_tag::{TypeTag, TypeTagModel, type_tags_model};
use crate::layout::{MoveTypeLayout, MoveStructLayout, LayoutModel, StructLayoutModel, layouts_model};
use crate::move_traits::{MoveType, MoveStructType, MoveStructState};

verus! {

/// An object in the MoveOS state store: its id, its owner and its value.
#[derive(Debug)]
pub struct ObjectEntity<T> {
    pub id: ObjectID,
    pub owner: AccountAddress,
    pub value: T,
}

/// `ObjectEntity<T>` stands for the Move struct `0x2::object::ObjectEntity<T>`.
impl<T: MoveStructType> MoveStructType for ObjectEntity<T> {
    open spec fn spec_module_address() -> AccountAddress {
        short_address(2)
    }

    open spec fn spec_module_name() -> Seq<char> {
        "object"@
    }

    open spec fn spec_struct_name() -> Seq<char> {
        "ObjectEntity"@
    }

    open spec fn has_type_params() -> bool {
        T::has_type_params()
    }

    open spec fn spec_type_params() -> Seq<TypeTagModel> {
        seq![T::spec_type_tag()]
    }

    fn module_address() -> (a: AccountAddress) {
        moveos_std_address()
    }

    fn module_identifier() -> (m: String) {
        String::from_str("object")
    }

    fn struct_identifier() -> (n: String) {
        String::from_str("ObjectEntity")
    }

    fn type_params() -> (ps: Vec<TypeTag>) {
        let mut ps: Vec<TypeTag> = Vec::new();
        ps.push(T::type_tag());
        proof {
            reveal_with_fuel(type_tags_model, 2);
            assert(ps@.drop_last() =~= Seq::<TypeTag>::empty());
        }
        ps
    }
}

/// `ObjectID` stands for the Move struct `0x2::object::ObjectID { id: address }`.
impl MoveStructType for ObjectID {
    open spec fn spec_module_address() -> AccountAddress {
        short_address(2)
    }

    open spec fn spec_module_name() -> Seq<char> {
        "object"@
    }

    open spec fn spec_struct_name() -> Seq<char> {
        "ObjectID"@
    }

    open spec fn has_type_params() -> bool {
        true
    }

    open spec fn spec_type_params() -> Seq<TypeTagModel> {
        Seq::empty()
    }

    fn module_address() -> (a: AccountAddress) {
        moveos_std_address()
    }

    fn module_identifier() -> (m: String) {
        String::from_str("object")
    }

    fn struct_identifier() -> (n: String) {
        String::from_str("ObjectID")
    }

    fn type_params() -> (ps: Vec<TypeTag>) {
        Vec::new()
    }
}

impl MoveStructState for ObjectID {
    open spec fn spec_struct_layout() -> StructLayoutModel {
        StructLayoutModel::Runtime(seq![LayoutModel::Address])
    }

    fn struct_layout() -> (layout: MoveStructLayout) {
        let mut fields: Vec<MoveTypeLayout> = Vec::new();
        fields.push(MoveTypeLayout::Address);
        proof {
            reveal_with_fuel(layouts_model, 2);
            assert(fields@.drop_last() =~= Seq::<MoveTypeLayout>::empty());
        }
        MoveStructLayout::Runtime(fields)
    }
}

/// A Move `0x1::string::String`: UTF-8 text held as its bytes.
#[derive(Debug)]
pub struct MoveString {
    pub bytes: Vec<u8>,
}

/// A Move `0x1::ascii::String`: ASCII text held as its bytes.
#[derive(Debug)]
pub struct MoveAsciiString {
    pub bytes: Vec<u8>,
}

/// The layout of a struct whose one field is a `vector<u8>`.
fn bytes_struct_layout() -> (layout: MoveStructLayout)
    ensures
        layout@ == StructLayoutModel::Runtime(seq![LayoutModel::Vector(Box::new(LayoutModel::U8))]),
{
    let mut fields: Vec<MoveTypeLayout> = Vec::new();
    fields.push(MoveTypeLayout::Vector(Box::new(MoveTypeLayout::U8)));
    proof {
        reveal_with_fuel(layouts_model, 2);
        assert(fields@.drop_last() =~= Seq::<MoveTypeLayout>::empty());
        crate::layout::lemma_layouts_model(fields@);
        assert(fields@[0] == MoveTypeLayout::Vector(Box::new(MoveTypeLayout::U8)));
        assert(crate::layout::layout_model(MoveTypeLayout::U8) == LayoutModel::U8);
        assert(crate::layout::layout_model(fields@[0]) == LayoutModel::Vector(Box::new(LayoutModel::U8)));
        assert(layouts_model(fields@) =~= seq![LayoutModel::Vector(Box::new(LayoutModel::U8))]);
    }
    MoveStructLayout::Runtime(fields)
}

impl MoveStructType for MoveString {
    open spec fn spec_module_address() -> AccountAddress {
        short_address(1)
    }

    open spec fn spec_module_name() -> Seq<char> {
        "string"@
    }

    open spec fn spec_struct_name() -> Seq<char> {
        "String"@
    }

    open spec fn has_type_params() -> bool {
        true
    }

    open spec fn spec_type_params() -> Seq<TypeTagModel> {
        Seq::empty()
    }

    fn module_address() -> (a: AccountAddress) {
        core_code_address()
    }

    fn module_identifier() -> (m: String) {
        String::from_str("string")
    }

    fn struct_identifier() -> (n: String) {
        String::from_str("String")
    }

    fn type_params() -> (ps: Vec<TypeTag>) {
        Vec::new()
    }
}

impl MoveStructState for MoveString {
    open spec fn spec_struct_layout() -> StructLayoutModel {
        StructLayoutModel::Runtime(seq![LayoutModel::Vector(Box::new(LayoutModel::U8))])
    }

    fn struct_layout() -> (layout: MoveStructLayout) {
        bytes_struct_layout()
    }
}

impl MoveStructType for MoveAsciiString {
    open spec fn spec_module_address() -> AccountAddress {
        short_address(1)
    }

    open spec fn spec_module_name() -> Seq<char> {
        "ascii"@
    }

    open spec fn spec_struct_name() -> Seq<char> {
        "String"@
    }

    open spec fn has_type_params() -> bool {
        true
    }

    open spec fn spec_type_params() -> Seq<TypeTagModel> {
        Seq::empty()
    }

    fn module_address() -> (a: AccountAddress) {
        core_code_address()
    }

    fn module_identifier() -> (m: String) {
        String::from_str("ascii")
    }

    fn struct_identifier() -> (n: String) {
        String::from_str("String")
    }

    fn type_params() -> (ps: Vec<TypeTag>) {
        Vec::new()
    }
}

impl MoveStructState for MoveAsciiString {
    open spec fn spec_struct_layout() -> StructLayoutModel {
        StructLayoutModel::Runtime(seq![LayoutModel::Vector(Box::new(LayoutModel::U8))])
    }

    fn struct_layout() -> (layout: MoveStructLayout) {
        bytes_struct_layout()
    }
}

} // verus!

use vstd::prelude::*;
use crate::account::{AccountAddress, ObjectID, short_address, core_code_address, moveos_std_address};
use crate::type_tag::{TypeTag, StructTag, TypeTagModel, StructTagModel, type_tag_eq, struct_tag_eq, type_tags_model};
use crate::layout::{MoveTypeLayout, MoveStructLayout, LayoutModel, StructLayoutModel, layout_match_outcome, type_layout_match};

verus! {

/// A Rust type that stands for a Move type.
pub trait MoveType: Sized {
    /// Whether the type stands for a concrete Move type, so that it has a tag.
    spec fn has_type_tag() -> bool;

    /// The tag of the Move type.
    spec fn spec_type_tag() -> TypeTagModel;

    fn type_tag() -> (tag: TypeTag)
        requires
            Self::has_type_tag(),
        ensures
            tag@ == Self::spec_type_tag(),
    ;

    /// Whether `type_tag` is the tag of this type.
    fn type_tag_match(type_tag: &TypeTag) -> (r: bool)
        requires
            Self::has_type_tag(),
        ensures
            r == (type_tag@ == Self::spec_type_tag()),
    {
        let own = Self::type_tag();
        type_tag_eq(type_tag, &own)
    }
}

/// The tag of the Move struct type that `S` stands for.
pub open spec fn spec_struct_tag<S: MoveStructType>() -> StructTagModel {
    StructTagModel {
        address: S::spec_module_address(),
        module: S::spec_module_name(),
        name: S::spec_struct_name(),
        type_params: S::spec_type_params(),
    }
}

/// A Rust type that stands for a Move struct type `address::module::name<type_params>`.
pub trait MoveStructType: MoveType {
    spec fn spec_module_address() -> AccountAddress;

    spec fn spec_module_name() -> Seq<char>;

    spec fn spec_struct_name() -> Seq<char>;

    /// Whether the struct type's type parameters are known.
    spec fn has_type_params() -> bool;

    spec fn spec_type_params() -> Seq<TypeTagModel>;

    /// The address of the module that declares the struct.
    fn module_address() -> (a: AccountAddress)
        ensures
            a == Self::spec_module_address(),
    ;

    /// The name of the module that declares the struct.
    fn module_identifier() -> (m: String)
        ensures
            m@ == Self::spec_module_name(),
    ;

    /// The name of the struct.
    fn struct_identifier() -> (n: String)
        ensures
            n@ == Self::spec_struct_name(),
    ;

    /// The struct type's type arguments.
    fn type_params() -> (ps: Vec<TypeTag>)
        requires
            Self::has_type_params(),
        ensures
            type_tags_model(ps@) == Self::spec_type_params(),
    ;

    /// The tag of the struct type.
    fn struct_tag() -> (tag: StructTag)
        requires
            Self::has_type_params(),
        ensures
            tag@ == (StructTagModel {
                address: Self::spec_module_address(),
                module: Self::spec_module_name(),
                name: Self::spec_struct_name(),
                type_params: Self::spec_type_params(),
            }),
    {
        StructTag {
            address: Self::module_address(),
            name: Self::struct_identifier(),
            module: Self::module_identifier(),
            type_params: Self::type_params(),
        }
    }

    /// Whether `struct_tag` is the tag of this struct type.
    fn struct_tag_match(struct_tag: &StructTag) -> (r: bool)
        requires
            Self::has_type_params(),
        ensures
            r == (struct_tag@ == (StructTagModel {
                address: Self::spec_module_address(),
                module: Self::spec_module_name(),
                name: Self::spec_struct_name(),
                type_params: Self::spec_type_params(),
            })),
    {
        let own = Self::struct_tag();
        struct_tag_eq(struct_tag, &own)
    }

    /// Whether `struct_tag` names this struct type, whatever its type arguments.
    fn struct_tag_match_without_type_param(struct_tag: &StructTag) -> (r: bool)
        ensures
            r == (struct_tag.address == Self::spec_module_address()
                && struct_tag.module@ == Self::spec_module_name()
                && struct_tag.name@ == Self::spec_struct_name()),
    {
        let address = Self::module_address();
        let module = Self::module_identifier();
        let name = Self::struct_identifier();
        struct_tag.address == address && struct_tag.module == module && struct_tag.name == name
    }
}

/// A Rust type that stands for a Move type whose values it can hold.
pub trait MoveState: MoveType {
    /// The layout of the Move type's values.
    spec fn spec_type_layout() -> LayoutModel;

    fn type_layout() -> (layout: MoveTypeLayout)
        ensures
            layout@ == Self::spec_type_layout(),
    ;

    /// Whether `other_type_layout` describes the same shape of value as this type's layout.
    fn type_layout_match(other_type_layout: &MoveTypeLayout) -> (r: bool)
        requires
            layout_match_outcome(Self::spec_type_layout(), other_type_layout@) is Some,
        ensures
            layout_match_outcome(Self::spec_type_layout(), other_type_layout@) == Some(r),
    {
        let self_layout = Self::type_layout();
        type_layout_match(&self_layout, other_type_layout)
    }
}

/// A Rust type that stands for a Move struct type whose values it can hold.
pub trait MoveStructState: MoveState + MoveStructType {
    spec fn spec_struct_layout() -> StructLayoutModel;

    fn struct_layout() -> (layout: MoveStructLayout)
        ensures
            layout@ == Self::spec_struct_layout(),
    ;
}

/// A Move runtime value.
pub trait MoveRuntimeValue {}

impl<S: MoveStructType> MoveType for S {
    open spec fn has_type_tag() -> bool {
        S::has_type_params()
    }

    open spec fn spec_type_tag() -> TypeTagModel {
        TypeTagModel::Struct(spec_struct_tag::<S>())
    }

    fn type_tag() -> (tag: TypeTag) {
        TypeTag::Struct(Box::new(S::struct_tag()))
    }
}

impl<S: MoveStructState> MoveState for S {
    open spec fn spec_type_layout() -> LayoutModel {
        LayoutModel::Struct(S::spec_struct_layout())
    }

    fn type_layout() -> (layout: MoveTypeLayout) {
        MoveTypeLayout::Struct(S::struct_layout())
    }
}

impl<S: MoveType> MoveType for Vec<S> {
    open spec fn has_type_tag() -> bool {
        S::has_type_tag()
    }

    open spec fn spec_type_tag() -> TypeTagModel {
        TypeTagModel::Vector(Box::new(S::spec_type_tag()))
    }

    fn type_tag() -> (tag: TypeTag) {
        TypeTag::Vector(Box::new(S::type_tag()))
    }
}

impl<S: MoveState> MoveState for Vec<S> {
    open spec fn spec_type_layout() -> LayoutModel {
        LayoutModel::Vector(Box::new(S::spec_type_layout()))
    }

    fn type_layout() -> (layout: MoveTypeLayout) {
        MoveTypeLayout::Vector(Box::new(S::type_layout()))
    }
}


/// A 256-bit unsigned integer, held as two 128-bit halves (`high` the upper one).
#[derive(Clone, Copy, Debug, PartialEq, Eq, Structural)]
pub struct U256 {
    pub high: u128,
    pub low: u128,
}

impl MoveType for u8 {
    open spec fn has_type_tag() -> bool {
        true
    }

    open spec fn spec_type_tag() -> TypeTagModel {
        TypeTagModel::U8
    }

    fn type_tag() -> (tag: TypeTag) {
        TypeTag::U8
    }
}

impl MoveState for u8 {
    open spec fn spec_type_layout() -> LayoutModel {
        LayoutModel::U8
    }

    fn type_layout() -> (layout: MoveTypeLayout) {
        MoveTypeLayout::U8
    }
}

impl MoveType for u16 {
    open spec fn has_type_tag() -> bool {
        true
    }

    open spec fn spec_type_tag() -> TypeTagModel {
        TypeTagModel::U16
    }

    fn type_tag() -> (tag: TypeTag) {
        TypeTag::U16
    }
}

impl MoveState for u16 {
    open spec fn spec_type_layout() -> LayoutModel {
        LayoutModel::U16
    }

    fn type_layout() -> (layout: MoveTypeLayout) {
        MoveTypeLayout::U16
    }
}

impl MoveType for u32 {
    open spec fn has_type_tag() -> bool {
        true
    }

    open spec fn spec_type_tag() -> TypeTagModel {
        TypeTagModel::U32
    }

    fn type_tag() -> (tag: TypeTag) {
        TypeTag::U32
    }
}

impl MoveState for u32 {
    open spec fn spec_type_layout() -> LayoutModel {
        LayoutModel::U32
    }

    fn type_layout() -> (layout: MoveTypeLayout) {
        MoveTypeLayout::U32
    }
}

impl MoveType for u64 {
    open spec fn has_type_tag() -> bool {
        true
    }

    open spec fn spec_type_tag() -> TypeTagModel {
        TypeTagModel::U64
    }

    fn type_tag() -> (tag: TypeTag) {
        TypeTag::U64
    }
}

impl MoveState for u64 {
    open spec fn spec_type_layout() -> LayoutModel {
        LayoutModel::U64
    }

    fn type_layout() -> (layout: MoveTypeLayout) {
        MoveTypeLayout::U64
    }
}

impl MoveType for u128 {
    open spec fn has_type_tag() -> bool {
        true
    }

    open spec fn spec_type_tag() -> TypeTagModel {
        TypeTagModel::U128
    }

    fn type_tag() -> (tag: TypeTag) {
        TypeTag::U128
    }
}

impl MoveState for u128 {
    open spec fn spec_type_layout() -> LayoutModel {
        LayoutModel::U128
    }

    fn type_layout() -> (layout: MoveTypeLayout) {
        MoveTypeLayout::U128
    }
}

impl MoveType for U256 {
    open spec fn has_type_tag() -> bool {
        true
    }

    open spec fn spec_type_tag() -> TypeTagModel {
        TypeTagModel::U256
    }

    fn type_tag() -> (tag: TypeTag) {
        TypeTag::U256
    }
}

impl MoveState for U256 {
    open spec fn spec_type_layout() -> LayoutModel {
        LayoutModel::U256
    }

    fn type_layout() -> (layout: MoveTypeLayout) {
        MoveTypeLayout::U256
    }
}

impl MoveType for bool {
    open spec fn has_type_tag() -> bool {
        true
    }

    open spec fn spec_type_tag() -> TypeTagModel {
        TypeTagModel::Bool
    }

    fn type_tag() -> (tag: TypeTag) {
        TypeTag::Bool
    }
}

impl MoveState for bool {
    open spec fn spec_type_layout() -> LayoutModel {
        LayoutModel::Bool
    }

    fn type_layout() -> (layout: MoveTypeLayout) {
        MoveTypeLayout::Bool
    }
}

impl MoveType for AccountAddress {
    open spec fn has_type_tag() -> bool {
        true
    }

    open spec fn spec_type_tag() -> TypeTagModel {
        TypeTagModel::Address
    }

    fn type_tag() -> (tag: TypeTag) {
        TypeTag::Address
    }
}

impl MoveState for AccountAddress {
    open spec fn spec_type_layout() -> LayoutModel {
        LayoutModel::Address
    }

    fn type_layout() -> (layout: MoveTypeLayout) {
        MoveTypeLayout::Address
    }
}

/// A placeholder for a Move struct type that is not known, for checks that
/// look at a struct's name only. It has no type arguments, hence no tag.
pub struct PlaceholderStruct;

impl MoveStructType for PlaceholderStruct {
    open spec fn spec_module_address() -> AccountAddress {
        short_address(0)
    }

    open spec fn spec_module_name() -> Seq<char> {
        "placeholder"@
    }

    open spec fn spec_struct_name() -> Seq<char> {
        "PlaceholderStruct"@
    }

    open spec fn has_type_params() -> bool {
        false
    }

    open spec fn spec_type_params() -> Seq<TypeTagModel> {
        Seq::empty()
    }

    fn module_address() -> (a: AccountAddress) {
        AccountAddress::zero()
    }

    fn module_identifier() -> (m: String) {
        String::from_str("placeholder")
    }

    fn struct_identifier() -> (n: String) {
        String::from_str("PlaceholderStruct")
    }

    /// A placeholder stands for no type: its type arguments are never asked for.
    fn type_params() -> (ps: Vec<TypeTag>) {
        proof {
            assert(false);
        }
        Vec::new()
    }
}


/// A struct tag that is the tag of a struct type also names that struct type:
/// matching the whole tag implies matching without the type arguments.
pub proof fn law_struct_tag_match_implies_name_match<S: MoveStructType>(tag: StructTagModel)
    requires
        tag == spec_struct_tag::<S>(),
    ensures
        tag.address == S::spec_module_address(),
        tag.module == S::spec_module_name(),
        tag.name == S::spec_struct_name(),
{
}

/// The type tag of a struct type is the struct tag of that type.
pub proof fn law_struct_type_tag_is_struct_tag<S: MoveStructType>()
    ensures
        <S as MoveType>::spec_type_tag() == TypeTagModel::Struct(spec_struct_tag::<S>()),
        <S as MoveType>::has_type_tag() == S::has_type_params(),
{
}

/// A value type whose layout holds plain field lists matches its own layout.
pub proof fn law_own_layout_matches<T: MoveState>()
    requires
        crate::layout::is_runtime_layout(T::spec_type_layout()),
    ensures
        layout_match_outcome(T::spec_type_layout(), T::spec_type_layout()) == Some(true),
{
    crate::layout::law_runtime_layout_match_reflexive(T::spec_type_layout());
}


/// The layout that values of a type have, as far as its tag alone fixes it:
/// each primitive type has the layout of the same name, a vector the vector
/// layout of its element's layout; a struct's layout is not fixed by its tag.
pub open spec fn layout_of_type_tag(t: TypeTagModel) -> Option<LayoutModel>
    decreases t,
{
    match t {
        TypeTagModel::Bool => Some(LayoutModel::Bool),
        TypeTagModel::U8 => Some(LayoutModel::U8),
        TypeTagModel::U16 => Some(LayoutModel::U16),
        TypeTagModel::U32 => Some(LayoutModel::U32),
        TypeTagModel::U64 => Some(LayoutModel::U64),
        TypeTagModel::U128 => Some(LayoutModel::U128),
        TypeTagModel::U256 => Some(LayoutModel::U256),
        TypeTagModel::Address => Some(LayoutModel::Address),
        TypeTagModel::Signer => Some(LayoutModel::Signer),
        TypeTagModel::Vector(inner) => match layout_of_type_tag(*inner) {
            Some(l) => Some(LayoutModel::Vector(Box::new(l))),
            None => None,
        },
        TypeTagModel::Struct(_) => None,
    }
}

/// Each primitive Rust type stands for the Move type of the same name: it has
/// a tag, that tag is the Move type's, and its layout is the one that tag fixes.
pub proof fn law_primitive_types_stand_for_their_move_types()
    ensures
        <u8 as MoveType>::spec_type_tag() == TypeTagModel::U8,
        <u16 as MoveType>::spec_type_tag() == TypeTagModel::U16,
        <u32 as MoveType>::spec_type_tag() == TypeTagModel::U32,
        <u64 as MoveType>::spec_type_tag() == TypeTagModel::U64,
        <u128 as MoveType>::spec_type_tag() == TypeTagModel::U128,
        <U256 as MoveType>::spec_type_tag() == TypeTagModel::U256,
        <bool as MoveType>::spec_type_tag() == TypeTagModel::Bool,
        <AccountAddress as MoveType>::spec_type_tag() == TypeTagModel::Address,
        <u8 as MoveType>::has_type_tag(),
        <u16 as MoveType>::has_type_tag(),
        <u32 as MoveType>::has_type_tag(),
        <u64 as MoveType>::has_type_tag(),
        <u128 as MoveType>::has_type_tag(),
        <U256 as MoveType>::has_type_tag(),
        <bool as MoveType>::has_type_tag(),
        <AccountAddress as MoveType>::has_type_tag(),
        layout_of_type_tag(<u8 as MoveType>::spec_type_tag()) == Some(<u8 as MoveState>::spec_type_layout()),
        layout_of_type_tag(<u16 as MoveType>::spec_type_tag()) == Some(<u16 as MoveState>::spec_type_layout()),
        layout_of_type_tag(<u32 as MoveType>::spec_type_tag()) == Some(<u32 as MoveState>::spec_type_layout()),
        layout_of_type_tag(<u64 as MoveType>::spec_type_tag()) == Some(<u64 as MoveState>::spec_type_layout()),
        layout_of_type_tag(<u128 as MoveType>::spec_type_tag()) == Some(<u128 as MoveState>::spec_type_layout()),
        layout_of_type_tag(<U256 as MoveType>::spec_type_tag()) == Some(<U256 as MoveState>::spec_type_layout()),
        layout_of_type_tag(<bool as MoveType>::spec_type_tag()) == Some(<bool as MoveState>::spec_type_layout()),
        layout_of_type_tag(<AccountAddress as MoveType>::spec_type_tag()) == Some(<AccountAddress as MoveState>::spec_type_layout()),
{
}

/// A vector type's layout follows its tag whenever its element type's does.
pub proof fn law_vector_layout_follows_tag<S: MoveState>()
    requires
        layout_of_type_tag(S::spec_type_tag()) == Some(S::spec_type_layout()),
    ensures
        layout_of_type_tag(<Vec<S> as MoveType>::spec_type_tag()) == Some(<Vec<S> as MoveState>::spec_type_layout()),
{
}

/// A type whose layout follows its tag matches the layout that its tag fixes.
pub proof fn law_layout_of_own_tag_matches<T: MoveState>()
    requires
        layout_of_type_tag(T::spec_type_tag()) == Some(T::spec_type_layout()),
    ensures
        layout_match_outcome(T::spec_type_layout(), layout_of_type_tag(T::spec_type_tag())->0) == Some(true),
{
    lemma_tag_layout_is_runtime(T::spec_type_tag());
    crate::layout::law_runtime_layout_match_reflexive(T::spec_type_layout());
}

/// A layout fixed by a tag holds no struct at all, hence no decorated one.
proof fn lemma_tag_layout_is_runtime(t: TypeTagModel)
    ensures
        layout_of_type_tag(t) matches Some(l) ==> crate::layout::is_runtime_layout(l),
    decreases t,
{
    if let TypeTagModel::Vector(inner) = t {
        lemma_tag_layout_is_runtime(*inner);
    }
}

} // verus!

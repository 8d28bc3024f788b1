use vstd::prelude::*;
use crate::account::AccountAddress;

verus! {

/// The type of a Move value.
#[derive(Debug)]
pub enum TypeTag {
    Bool,
    U8,
    U64,
    U128,
    Address,
    Signer,
    Vector(Box<TypeTag>),
    Struct(Box<StructTag>),
    U16,
    U32,
    U256,
}

/// A fully qualified Move struct type: `address::module::name<type_params>`.
#[derive(Debug)]
pub struct StructTag {
    pub address: AccountAddress,
    pub module: String,
    pub name: String,
    pub type_params: Vec<TypeTag>,
}

/// The mathematical value of a [`TypeTag`].
pub enum TypeTagModel {
    Bool,
    U8,
    U64,
    U128,
    Address,
    Signer,
    Vector(Box<TypeTagModel>),
    Struct(StructTagModel),
    U16,
    U32,
    U256,
}

/// The mathematical value of a [`StructTag`].
pub struct StructTagModel {
    pub address: AccountAddress,
    pub module: Seq<char>,
    pub name: Seq<char>,
    pub type_params: Seq<TypeTagModel>,
}

pub open spec fn type_tag_model(t: TypeTag) -> TypeTagModel
    decreases t,
{
    match t {
        TypeTag::Bool => TypeTagModel::Bool,
        TypeTag::U8 => TypeTagModel::U8,
        TypeTag::U64 => TypeTagModel::U64,
        TypeTag::U128 => TypeTagModel::U128,
        TypeTag::Address => TypeTagModel::Address,
        TypeTag::Signer => TypeTagModel::Signer,
        TypeTag::Vector(inner) => TypeTagModel::Vector(Box::new(type_tag_model(*inner))),
        TypeTag::Struct(s) => TypeTagModel::Struct(struct_tag_model(*s)),
        TypeTag::U16 => TypeTagModel::U16,
        TypeTag::U32 => TypeTagModel::U32,
        TypeTag::U256 => TypeTagModel::U256,
    }
}

pub open spec fn struct_tag_model(s: StructTag) -> StructTagModel
    decreases s,
{
    StructTagModel {
        address: s.address,
        module: s.module@,
        name: s.name@,
        type_params: type_tags_model(s.type_params@),
    }
}

pub open spec fn type_tags_model(ts: Seq<TypeTag>) -> Seq<TypeTagModel>
    decreases ts,
{
    if ts.len() == 0 {
        Seq::empty()
    } else {
        type_tags_model(ts.drop_last()).push(type_tag_model(ts.last()))
    }
}


impl View for TypeTag {
    type V = TypeTagModel;

    open spec fn view(&self) -> TypeTagModel {
        type_tag_model(*self)
    }
}

impl View for StructTag {
    type V = StructTagModel;

    open spec fn view(&self) -> StructTagModel {
        struct_tag_model(*self)
    }
}

/// The models of a sequence of type tags, element by element.
pub proof fn lemma_type_tags_model(ts: Seq<TypeTag>)
    ensures
        type_tags_model(ts).len() == ts.len(),
        forall|i: int| 0 <= i < ts.len() ==> #[trigger] type_tags_model(ts)[i] == type_tag_model(ts[i]),
    decreases ts.len(),
{
    if ts.len() > 0 {
        lemma_type_tags_model(ts.drop_last());
    }
}

/// Decides whether two type tags denote the same type.
pub fn type_tag_eq(a: &TypeTag, b: &TypeTag) -> (r: bool)
    ensures
        r == (a@ == b@),
    decreases a,
{
    match (a, b) {
        (TypeTag::Bool, TypeTag::Bool) => true,
        (TypeTag::U8, TypeTag::U8) => true,
        (TypeTag::U64, TypeTag::U64) => true,
        (TypeTag::U128, TypeTag::U128) => true,
        (TypeTag::Address, TypeTag::Address) => true,
        (TypeTag::Signer, TypeTag::Signer) => true,
        (TypeTag::Vector(x), TypeTag::Vector(y)) => type_tag_eq(x, y),
        (TypeTag::Struct(x), TypeTag::Struct(y)) => struct_tag_eq(x, y),
        (TypeTag::U16, TypeTag::U16) => true,
        (TypeTag::U32, TypeTag::U32) => true,
        (TypeTag::U256, TypeTag::U256) => true,
        _ => false,
    }
}

/// Decides whether two struct tags denote the same struct type.
pub fn struct_tag_eq(a: &StructTag, b: &StructTag) -> (r: bool)
    ensures
        r == (a@ == b@),
    decreases a,
{
    let same_params = type_tags_eq(&a.type_params, &b.type_params);
    a.address == b.address && a.module == b.module && a.name == b.name && same_params
}

/// Decides whether two lists of type tags are equal element by element.
pub fn type_tags_eq(a: &Vec<TypeTag>, b: &Vec<TypeTag>) -> (r: bool)
    ensures
        r == (type_tags_model(a@) == type_tags_model(b@)),
    decreases a,
{
    proof {
        lemma_type_tags_model(a@);
        lemma_type_tags_model(b@);
    }
    if a.len() != b.len() {
        return false;
    }
    let mut i: usize = 0;
    while i < a.len()
        invariant
            a.len() == b.len(),
            i <= a.len(),
            type_tags_model(a@).len() == a.len(),
            type_tags_model(b@).len() == b.len(),
            forall|k: int| 0 <= k < a.len() ==> #[trigger] type_tags_model(a@)[k] == type_tag_model(a@[k]),
            forall|k: int| 0 <= k < b.len() ==> #[trigger] type_tags_model(b@)[k] == type_tag_model(b@[k]),
            forall|k: int| 0 <= k < i ==> type_tag_model(#[trigger] a@[k]) == type_tag_model(b@[k]),
        decreases a.len() - i,
    {
        if !type_tag_eq(&a[i], &b[i]) {
            assert(type_tags_model(a@)[i as int] != type_tags_model(b@)[i as int]);
            return false;
        }
        i += 1;
    }
    assert(type_tags_model(a@) =~= type_tags_model(b@));
    true
}


/// A copy of a type tag.
pub fn type_tag_clone(t: &TypeTag) -> (r: TypeTag)
    ensures
        r@ == t@,
    decreases t,
{
    match t {
        TypeTag::Bool => TypeTag::Bool,
        TypeTag::U8 => TypeTag::U8,
        TypeTag::U64 => TypeTag::U64,
        TypeTag::U128 => TypeTag::U128,
        TypeTag::Address => TypeTag::Address,
        TypeTag::Signer => TypeTag::Signer,
        TypeTag::Vector(inner) => TypeTag::Vector(Box::new(type_tag_clone(inner))),
        TypeTag::Struct(s) => TypeTag::Struct(Box::new(struct_tag_clone(s))),
        TypeTag::U16 => TypeTag::U16,
        TypeTag::U32 => TypeTag::U32,
        TypeTag::U256 => TypeTag::U256,
    }
}

/// A copy of a struct tag.
pub fn struct_tag_clone(s: &StructTag) -> (r: StructTag)
    ensures
        r@ == s@,
    decreases s,
{
    StructTag {
        address: s.address,
        module: s.module.clone(),
        name: s.name.clone(),
        type_params: type_tags_clone(&s.type_params),
    }
}

/// A copy of a list of type tags.
pub fn type_tags_clone(ts: &Vec<TypeTag>) -> (r: Vec<TypeTag>)
    ensures
        type_tags_model(r@) == type_tags_model(ts@),
    decreases ts,
{
    let mut r: Vec<TypeTag> = Vec::new();
    let mut i: usize = 0;
    while i < ts.len()
        invariant
            i <= ts.len(),
            r.len() == i,
            forall|k: int| 0 <= k < i ==> type_tag_model(#[trigger] r@[k]) == type_tag_model(ts@[k]),
        decreases ts.len() - i,
    {
        r.push(type_tag_clone(&ts[i]));
        i += 1;
    }
    proof {
        lemma_type_tags_model(r@);
        lemma_type_tags_model(ts@);
        assert(type_tags_model(r@) =~= type_tags_model(ts@));
    }
    r
}

} // verus!

use vstd::prelude::*;
use crate::account::{AccountAddress, ObjectID};
use crate::type_tag::{TypeTag, StructTag, TypeTagModel, StructTagModel, type_tag_eq, struct_tag_eq, struct_tag_clone};
use crate::move_traits::{MoveStructType, PlaceholderStruct, spec_struct_tag};
use crate::object::ObjectEntity;
use crate::annotated::{AnnotatedMoveValue, AnnotatedMoveStruct, AnnotatedObject, last_field_address, last_field_address_of};

verus! {

/// Why a state could not be read as what was asked of it.
#[derive(Debug, PartialEq, Eq, Structural)]
pub enum StateError {
    /// The state's type is not a struct type.
    NotStructType,
    /// The state's type is a struct type other than the one expected.
    StructTypeMismatch,
    /// The state is not an object.
    NotObject,
    /// The state's decoded value is not a struct.
    NotStructValue,
    /// The decoded struct of an object does not hold an id, an owner and a value.
    InvalidObjectEntity,
}

/// A state in the MoveOS state store: the bytes of a Move value and its type.
/// It can be a Move module, object, resource or table value.
#[derive(Debug)]
pub struct State {
    /// The bytes of the value.
    pub value: Vec<u8>,
    /// The type of the value.
    pub value_type: TypeTag,
}

/// Whether a struct tag names `0x2::object::ObjectEntity`, whatever its type arguments.
pub open spec fn is_object_entity_tag(s: StructTagModel) -> bool {
    &&& s.address == ObjectEntity::<PlaceholderStruct>::spec_module_address()
    &&& s.module == ObjectEntity::<PlaceholderStruct>::spec_module_name()
    &&& s.name == ObjectEntity::<PlaceholderStruct>::spec_struct_name()
}

/// Whether a type's object-ness is well defined: an `ObjectEntity<T>` type
/// must have a type argument `T`, and `T` must be a struct type.
pub open spec fn object_type_well_formed(t: TypeTagModel) -> bool {
    match t {
        TypeTagModel::Struct(s) => is_object_entity_tag(s) ==> {
            &&& s.type_params.len() > 0
            &&& s.type_params[0] is Struct
        },
        _ => true,
    }
}

/// The struct type `T` when `t` is `ObjectEntity<T>`; `None` for any other type.
pub open spec fn object_struct_tag_of(t: TypeTagModel) -> Option<StructTagModel> {
    match t {
        TypeTagModel::Struct(s) => if is_object_entity_tag(s) {
            match s.type_params[0] {
                TypeTagModel::Struct(inner) => Some(inner),
                _ => None,
            }
        } else {
            None
        },
        _ => None,
    }
}

impl State {
    pub fn new(value: Vec<u8>, value_type: TypeTag) -> (s: State)
        ensures
            s.value == value,
            s.value_type == value_type,
    {
        State { value, value_type }
    }

    pub fn value_type(&self) -> (t: &TypeTag)
        ensures
            *t == self.value_type,
    {
        &self.value_type
    }

    /// Whether the state's type is `type_tag`.
    pub fn match_type(&self, type_tag: &TypeTag) -> (r: bool)
        ensures
            r == (self.value_type@ == type_tag@),
    {
        type_tag_eq(&self.value_type, type_tag)
    }

    /// Whether the state's type is the struct type `type_tag`.
    pub fn match_struct_type(&self, type_tag: &StructTag) -> (r: bool)
        ensures
            r == (self.value_type@ == TypeTagModel::Struct(type_tag@)),
    {
        match &self.value_type {
            TypeTag::Struct(struct_tag) => struct_tag_eq(struct_tag, type_tag),
            _ => false,
        }
    }

    /// Whether the state is an object, that is, its type is `ObjectEntity<T>`.
    pub fn is_object(&self) -> (r: bool)
        requires
            object_type_well_formed(self.value_type@),
        ensures
            r == object_struct_tag_of(self.value_type@) is Some,
    {
        self.get_object_struct_tag().is_some()
    }

    /// The struct type `T` when the state is an object of type `ObjectEntity<T>`;
    /// `None` when it is not an object.
    pub fn get_object_struct_tag(&self) -> (r: Option<StructTag>)
        requires
            object_type_well_formed(self.value_type@),
        ensures
            match r {
                Some(tag) => object_struct_tag_of(self.value_type@) == Some(tag@),
                None => object_struct_tag_of(self.value_type@) is None,
            },
    {
        let val_type = self.value_type();
        match val_type {
            TypeTag::Struct(struct_tag) => {
                if ObjectEntity::<PlaceholderStruct>::struct_tag_match_without_type_param(struct_tag) {
                    proof {
                        assert(val_type@ == TypeTagModel::Struct(crate::type_tag::struct_tag_model(**struct_tag)));
                        crate::type_tag::lemma_type_tags_model(struct_tag.type_params@);
                    }
                    let object_type_param = &struct_tag.type_params[0];
                    match object_type_param {
                        TypeTag::Struct(inner) => Some(struct_tag_clone(inner)),
                        _ => {
                            proof {
                                assert(false);
                            }
                            None
                        },
                    }
                } else {
                    proof {
                        assert(val_type@ == TypeTagModel::Struct(crate::type_tag::struct_tag_model(**struct_tag)));
                        assert(!is_object_entity_tag(crate::type_tag::struct_tag_model(**struct_tag)));
                    }
                    None
                }
            },
            _ => None,
        }
    }

    /// Checks that the state holds a value of the Move struct type that `T`
    /// stands for, before its bytes are decoded as a `T`.
    pub fn check_move_state_type<T: MoveStructType>(&self) -> (r: Result<(), StateError>)
        requires
            T::has_type_params(),
        ensures
            match self.value_type@ {
                TypeTagModel::Struct(s) => if s == spec_struct_tag::<T>() {
                    r is Ok
                } else {
                    r == Err::<(), StateError>(StateError::StructTypeMismatch)
                },
                _ => r == Err::<(), StateError>(StateError::NotStructType),
            },
    {
        let val_type = self.value_type();
        match val_type {
            TypeTag::Struct(struct_tag) => {
                let expect_type = T::struct_tag();
                if struct_tag_eq(struct_tag, &expect_type) {
                    Ok(())
                } else {
                    Err(StateError::StructTypeMismatch)
                }
            },
            _ => Err(StateError::NotStructType),
        }
    }
}

/// A state together with its value decoded by its type.
#[derive(Debug)]
pub struct AnnotatedState {
    pub state: State,
    pub decoded_value: AnnotatedMoveValue,
}

impl AnnotatedState {
    pub fn new(state: State, decoded_value: AnnotatedMoveValue) -> (s: AnnotatedState)
        ensures
            s.state == state,
            s.decoded_value == decoded_value,
    {
        AnnotatedState { state, decoded_value }
    }

    /// The object that an object state holds, built from its decoded struct
    /// by [`object_of_entity_struct`]: an error when the state is not an
    /// object, when its decoded value is not a struct, or when that struct does
    /// not hold an object's id, owner and value.
    pub fn into_annotated_object(self) -> (r: Result<AnnotatedObject, StateError>)
        requires
            object_type_well_formed(self.state.value_type@),
        ensures
            object_struct_tag_of(self.state.value_type@) is None ==> r == Err::<AnnotatedObject, StateError>(StateError::NotObject),
            object_struct_tag_of(self.state.value_type@) is Some ==> match self.decoded_value {
                AnnotatedMoveValue::Struct(s) => match object_of_entity_struct(s) {
                    Some(object) => r == Ok::<AnnotatedObject, StateError>(object),
                    None => r == Err::<AnnotatedObject, StateError>(StateError::InvalidObjectEntity),
                },
                _ => r == Err::<AnnotatedObject, StateError>(StateError::NotStructValue),
            },
    {
        if !self.state.is_object() {
            return Err(StateError::NotObject);
        }
        match self.decoded_value {
            AnnotatedMoveValue::Struct(annotated_move_object) => AnnotatedObject::new_from_annotated_struct(
                annotated_move_object,
            ),
            _ => Err(StateError::NotStructValue),
        }
    }
}

/// The object held by the decoded struct of an `ObjectEntity<T>`, whose
/// fields are, in order, the id (an `ObjectID` struct, whose last field is the
/// address), the owner (an address) and the value (a struct): `None` when the
/// struct has fewer than three fields or they are not of these kinds.
pub open spec fn object_of_entity_struct(s: AnnotatedMoveStruct) -> Option<AnnotatedObject> {
    if s.value.len() < 3 {
        None
    } else {
        match (s.value@[0].1, s.value@[1].1, s.value@[2].1) {
            (AnnotatedMoveValue::Struct(id), AnnotatedMoveValue::Address(owner), AnnotatedMoveValue::Struct(value)) => {
                match last_field_address(id) {
                    Some(address) => Some(AnnotatedObject { id: ObjectID(address), owner, value }),
                    None => None,
                }
            },
            _ => None,
        }
    }
}

impl AnnotatedObject {
    /// The object held by the decoded struct of an `ObjectEntity<T>`, as
    /// [`object_of_entity_struct`] reads it; an error where it reads none.
    pub fn new_from_annotated_struct(annotated_move_struct: AnnotatedMoveStruct) -> (r: Result<AnnotatedObject, StateError>)
        ensures
            match object_of_entity_struct(annotated_move_struct) {
                Some(object) => r == Ok::<AnnotatedObject, StateError>(object),
                None => r == Err::<AnnotatedObject, StateError>(StateError::InvalidObjectEntity),
            },
    {
        let ghost whole = annotated_move_struct;
        let mut fields = annotated_move_struct.value;
        if fields.len() < 3 {
            return Err(StateError::InvalidObjectEntity);
        }
        let ghost before = fields@;
        let (_value_name, value_field) = fields.remove(2);
        let (_owner_name, owner_field) = fields.remove(1);
        let (_id_name, id_field) = fields.remove(0);
        assert(value_field == before[2].1);
        assert(owner_field == before[1].1);
        assert(id_field == before[0].1);
        let id = match &id_field {
            AnnotatedMoveValue::Struct(id_struct) => match last_field_address_of(id_struct) {
                Some(address) => ObjectID(address),
                None => return Err(StateError::InvalidObjectEntity),
            },
            _ => return Err(StateError::InvalidObjectEntity),
        };
        let owner = match owner_field {
            AnnotatedMoveValue::Address(owner) => owner,
            _ => return Err(StateError::InvalidObjectEntity),
        };
        match value_field {
            AnnotatedMoveValue::Struct(value) => Ok(AnnotatedObject { id, owner, value }),
            _ => Err(StateError::InvalidObjectEntity),
        }
    }
}

/// The type of a table's keys.
#[derive(Debug)]
pub struct TableTypeInfo {
    pub key_type: TypeTag,
}

impl TableTypeInfo {
    pub fn new(key_type: TypeTag) -> (t: TableTypeInfo)
        ensures
            t.key_type == key_type,
    {
        TableTypeInfo { key_type }
    }
}


/// A state whose type is `ObjectEntity<T>`, for a struct type `T`, is an
/// object, and its object type is the struct tag of `T`.
pub proof fn law_object_entity_state_is_object<T: MoveStructType>()
    requires
        T::has_type_params(),
    ensures
        object_type_well_formed(<ObjectEntity<T> as crate::move_traits::MoveType>::spec_type_tag()),
        object_struct_tag_of(<ObjectEntity<T> as crate::move_traits::MoveType>::spec_type_tag()) == Some(spec_struct_tag::<T>()),
{
}

/// A state whose type is not a struct type is no object.
pub proof fn law_non_struct_state_is_not_object(t: TypeTagModel)
    requires
        !(t is Struct),
    ensures
        object_type_well_formed(t),
        object_struct_tag_of(t) is None,
{
}

} // verus!

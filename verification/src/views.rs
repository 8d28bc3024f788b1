use vstd::prelude::*;
use crate::account::{AccountAddress, ObjectID};
use crate::keyed_map::KeyedMap;
use crate::type_tag::{StructTag, StructTagModel, struct_tag_clone};
use crate::move_traits::{MoveStructType, U256, spec_struct_tag};
use crate::object::{MoveString, MoveAsciiString};
use crate::transaction::{ScriptCall, FunctionCall, FunctionId, MoveAction, ScriptCallModel, FunctionCallModel, MoveActionModel, EventID, Event, EventModel, AnnotatedEvent, TypeInfo, TypeInfoModel};
use crate::type_tag::{TypeTag, type_tags_model};
use crate::annotated::{AnnotatedMoveValue, AnnotatedMoveStruct, AnnotatedObject, last_field_bytes, last_field_address, last_field_bytes_of, last_field_address_of};

verus! {

/// A decoded Move struct as shown to clients: its fields by name, in the
/// order of their names.
#[derive(Debug)]
pub struct AnnotatedMoveStructView {
    pub abilities: u8,
    pub type_: StructTag,
    pub value: KeyedMap<String, AnnotatedMoveValueView>,
}

/// Some struct types shown in a form of their own, for readability.
#[derive(Debug)]
pub enum SpecificStructView {
    MoveString(MoveString),
    MoveAsciiString(MoveAsciiString),
    ObjectID(ObjectID),
}

/// A decoded Move value as shown to clients.
#[derive(Debug)]
pub enum AnnotatedMoveValueView {
    U8(u8),
    /// Shown as a decimal string: JSON numbers cannot hold every `u64`.
    U64(u64),
    /// Shown as a decimal string.
    U128(u128),
    Bool(bool),
    Address(AccountAddress),
    Vector(Vec<AnnotatedMoveValueView>),
    Bytes(Vec<u8>),
    Struct(AnnotatedMoveStructView),
    SpecificStruct(SpecificStructView),
    U16(u16),
    U32(u32),
    /// Shown as a decimal string.
    U256(U256),
}

/// The struct types that have a view of their own.
pub enum SpecificKind {
    MoveString,
    MoveAsciiString,
    ObjectID,
}

/// Which view of its own, if any, a struct type has: the first of
/// `MoveString`, `MoveAsciiString` and `ObjectID` whose tag it is.
pub open spec fn specific_kind(tag: StructTagModel) -> Option<SpecificKind> {
    if tag == spec_struct_tag::<MoveString>() {
        Some(SpecificKind::MoveString)
    } else if tag == spec_struct_tag::<MoveAsciiString>() {
        Some(SpecificKind::MoveAsciiString)
    } else if tag == spec_struct_tag::<ObjectID>() {
        Some(SpecificKind::ObjectID)
    } else {
        None
    }
}

/// Whether a decoded struct has a view of its own: its type is one of the
/// specific struct types, and its last field holds what that type holds.
pub open spec fn has_specific_view(s: AnnotatedMoveStruct) -> bool {
    match specific_kind(s.type_@) {
        Some(SpecificKind::MoveString) => last_field_bytes(s) is Some,
        Some(SpecificKind::MoveAsciiString) => last_field_bytes(s) is Some,
        Some(SpecificKind::ObjectID) => last_field_address(s) is Some,
        None => false,
    }
}

/// Whether `v` is the specific view of the decoded struct `s`.
pub open spec fn is_specific_view(v: SpecificStructView, s: AnnotatedMoveStruct) -> bool {
    match specific_kind(s.type_@) {
        Some(SpecificKind::MoveString) => match v {
            SpecificStructView::MoveString(m) => last_field_bytes(s) == Some(m.bytes@),
            _ => false,
        },
        Some(SpecificKind::MoveAsciiString) => match v {
            SpecificStructView::MoveAsciiString(m) => last_field_bytes(s) == Some(m.bytes@),
            _ => false,
        },
        Some(SpecificKind::ObjectID) => match v {
            SpecificStructView::ObjectID(id) => last_field_address(s) == Some(id.0),
            _ => false,
        },
        None => false,
    }
}

/// Whether `v` is the client view of the decoded value `o`: the same value,
/// with structs of a specific type shown in their own form and other structs
/// field by field.
pub open spec fn is_value_view(v: AnnotatedMoveValueView, o: AnnotatedMoveValue) -> bool
    decreases o,
{
    match o {
        AnnotatedMoveValue::U8(x) => v == AnnotatedMoveValueView::U8(x),
        AnnotatedMoveValue::U16(x) => v == AnnotatedMoveValueView::U16(x),
        AnnotatedMoveValue::U32(x) => v == AnnotatedMoveValueView::U32(x),
        AnnotatedMoveValue::U64(x) => v == AnnotatedMoveValueView::U64(x),
        AnnotatedMoveValue::U128(x) => v == AnnotatedMoveValueView::U128(x),
        AnnotatedMoveValue::U256(x) => v == AnnotatedMoveValueView::U256(x),
        AnnotatedMoveValue::Bool(x) => v == AnnotatedMoveValueView::Bool(x),
        AnnotatedMoveValue::Address(x) => v == AnnotatedMoveValueView::Address(x),
        AnnotatedMoveValue::Bytes(b) => match v {
            AnnotatedMoveValueView::Bytes(vb) => vb@ == b@,
            _ => false,
        },
        AnnotatedMoveValue::Vector(_, items) => match v {
            AnnotatedMoveValueView::Vector(vs) => {
                &&& vs.len() == items.len()
                &&& forall|i: int| 0 <= i < items.len() ==> is_value_view(#[trigger] vs@[i], items@[i])
            },
            _ => false,
        },
        AnnotatedMoveValue::Struct(s) => if has_specific_view(s) {
            match v {
                AnnotatedMoveValueView::SpecificStruct(sv) => is_specific_view(sv, s),
                _ => false,
            }
        } else {
            match v {
                AnnotatedMoveValueView::Struct(sv) => is_struct_view(sv, s),
                _ => false,
            }
        },
    }
}

/// Whether the `i`-th field is the last one with its name.
pub open spec fn is_last_of_name(fields: Seq<(String, AnnotatedMoveValue)>, i: int) -> bool {
    forall|j: int| i < j < fields.len() ==> (#[trigger] fields[j]).0@ != fields[i].0@
}

/// Whether `v` is the client view of the decoded struct `s`: the same
/// abilities and type, and the fields by name, each name with the view of
/// the last field of that name.
pub open spec fn is_struct_view(v: AnnotatedMoveStructView, s: AnnotatedMoveStruct) -> bool
    decreases s,
{
    &&& v.abilities == s.abilities
    &&& v.type_@ == s.type_@
    &&& v.value.wf()
    &&& forall|k: Seq<char>| #[trigger] v.value@.contains_key(k)
        ==> exists|i: int| 0 <= i < s.value.len() && (#[trigger] s.value@[i]).0@ == k
    &&& forall|i: int| 0 <= i < s.value.len() && is_last_of_name(s.value@, i) ==> {
        &&& v.value@.contains_key((#[trigger] s.value@[i]).0@)
        &&& is_value_view(v.value@[s.value@[i].0@], s.value@[i].1)
    }
}


impl SpecificStructView {
    /// The view of its own of a decoded struct of one of the specific types;
    /// `None` for other structs, or where the struct's last field does not
    /// hold what its type holds.
    pub fn try_from_annotated(move_struct: AnnotatedMoveStruct) -> (r: Option<SpecificStructView>)
        ensures
            match r {
                Some(v) => has_specific_view(move_struct) && is_specific_view(v, move_struct),
                None => !has_specific_view(move_struct),
            },
    {
        specific_view_of(&move_struct)
    }
}

/// The view of its own of a decoded struct, as [`SpecificStructView::try_from_annotated`] gives it.
fn specific_view_of(move_struct: &AnnotatedMoveStruct) -> (r: Option<SpecificStructView>)
    ensures
        match r {
            Some(v) => has_specific_view(*move_struct) && is_specific_view(v, *move_struct),
            None => !has_specific_view(*move_struct),
        },
{
    if MoveString::struct_tag_match(&move_struct.type_) {
        match last_field_bytes_of(move_struct) {
            Some(bytes) => Some(SpecificStructView::MoveString(MoveString { bytes })),
            None => None,
        }
    } else if MoveAsciiString::struct_tag_match(&move_struct.type_) {
        match last_field_bytes_of(move_struct) {
            Some(bytes) => Some(SpecificStructView::MoveAsciiString(MoveAsciiString { bytes })),
            None => None,
        }
    } else if ObjectID::struct_tag_match(&move_struct.type_) {
        match last_field_address_of(move_struct) {
            Some(address) => Some(SpecificStructView::ObjectID(ObjectID(address))),
            None => None,
        }
    } else {
        None
    }
}


/// The client view of a decoded value.
fn value_view_of(o: &AnnotatedMoveValue) -> (v: AnnotatedMoveValueView)
    ensures
        is_value_view(v, *o),
    decreases o,
{
    match o {
        AnnotatedMoveValue::U8(x) => AnnotatedMoveValueView::U8(*x),
        AnnotatedMoveValue::U64(x) => AnnotatedMoveValueView::U64(*x),
        AnnotatedMoveValue::U128(x) => AnnotatedMoveValueView::U128(*x),
        AnnotatedMoveValue::Bool(x) => AnnotatedMoveValueView::Bool(*x),
        AnnotatedMoveValue::Address(x) => AnnotatedMoveValueView::Address(*x),
        AnnotatedMoveValue::Vector(element_type, items) => {
            let mut vs: Vec<AnnotatedMoveValueView> = Vec::new();
            let mut i: usize = 0;
            while i < items.len()
                invariant
                    *o == AnnotatedMoveValue::Vector(*element_type, *items),
                    i <= items.len(),
                    vs.len() == i,
                    forall|k: int| 0 <= k < i ==> is_value_view(#[trigger] vs@[k], items@[k]),
                decreases items.len() - i,
            {
                proof {
                    assert(decreases_to!(*o => (*o)->Vector_1));
                    assert(decreases_to!(*items => items@[i as int]));
                }
                vs.push(value_view_of(&items[i]));
                i += 1;
            }
            AnnotatedMoveValueView::Vector(vs)
        },
        AnnotatedMoveValue::Bytes(b) => {
            let copy = b.clone();
            assert(copy@ =~= b@);
            AnnotatedMoveValueView::Bytes(copy)
        },
        AnnotatedMoveValue::Struct(s) => match specific_view_of(s) {
            Some(struct_view) => AnnotatedMoveValueView::SpecificStruct(struct_view),
            None => AnnotatedMoveValueView::Struct(struct_view_of(s)),
        },
        AnnotatedMoveValue::U16(x) => AnnotatedMoveValueView::U16(*x),
        AnnotatedMoveValue::U32(x) => AnnotatedMoveValueView::U32(*x),
        AnnotatedMoveValue::U256(x) => AnnotatedMoveValueView::U256(*x),
    }
}

/// The client view of a decoded struct: its fields by name.
fn struct_view_of(s: &AnnotatedMoveStruct) -> (v: AnnotatedMoveStructView)
    ensures
        is_struct_view(v, *s),
    decreases s,
{
    let mut fields: KeyedMap<String, AnnotatedMoveValueView> = KeyedMap::new();
    let mut i: usize = 0;
    while i < s.value.len()
        invariant
            i <= s.value.len(),
            fields.wf(),
            forall|k: Seq<char>| #[trigger] fields@.contains_key(k)
                ==> exists|j: int| 0 <= j < i && (#[trigger] s.value@[j]).0@ == k,
            forall|j: int| 0 <= j < i && (forall|j2: int| j < j2 < i ==> (#[trigger] s.value@[j2]).0@ != s.value@[j].0@) ==> {
                &&& fields@.contains_key((#[trigger] s.value@[j]).0@)
                &&& is_value_view(fields@[s.value@[j].0@], s.value@[j].1)
            },
        decreases s.value.len() - i,
    {
        let name = s.value[i].0.clone();
        let field_view = value_view_of(&s.value[i].1);
        let ghost before = fields@;
        fields.insert(name, field_view);
        proof {
            let fs = s.value@;
            assert forall|k: Seq<char>| #[trigger] fields@.contains_key(k)
                implies exists|j: int| 0 <= j < i + 1 && (#[trigger] fs[j]).0@ == k by {
                if k != fs[i as int].0@ {
                    assert(before.contains_key(k));
                    let j = choose|j: int| 0 <= j < i && (#[trigger] fs[j]).0@ == k;
                    assert(0 <= j < i + 1 && fs[j].0@ == k);
                }
            }
            assert forall|j: int| 0 <= j < i + 1 && (forall|j2: int| j < j2 < i + 1 ==> (#[trigger] fs[j2]).0@ != fs[j].0@) implies {
                &&& fields@.contains_key((#[trigger] fs[j]).0@)
                &&& is_value_view(fields@[fs[j].0@], fs[j].1)
            } by {
                if j < i {
                    assert(fs[i as int].0@ != fs[j].0@);
                    assert forall|j2: int| j < j2 < i implies (#[trigger] fs[j2]).0@ != fs[j].0@ by {
                        assert(j < j2 < i + 1);
                    }
                }
            }
        }
        i += 1;
    }
    AnnotatedMoveStructView {
        abilities: s.abilities,
        type_: struct_tag_clone(&s.type_),
        value: fields,
    }
}

impl AnnotatedMoveValueView {
    /// The client view of a decoded value.
    pub fn from(origin: AnnotatedMoveValue) -> (v: AnnotatedMoveValueView)
        ensures
            is_value_view(v, origin),
    {
        value_view_of(&origin)
    }
}

impl AnnotatedMoveStructView {
    /// The client view of a decoded struct, field by field.
    pub fn from(origin: AnnotatedMoveStruct) -> (v: AnnotatedMoveStructView)
        ensures
            is_struct_view(v, origin),
    {
        struct_view_of(&origin)
    }
}


/// An object as shown to clients, its value decoded.
#[derive(Debug)]
pub struct AnnotatedObjectView {
    pub id: ObjectID,
    pub owner: AccountAddress,
    pub value: AnnotatedMoveStructView,
}

impl AnnotatedObjectView {
    pub fn from(origin: AnnotatedObject) -> (v: AnnotatedObjectView)
        ensures
            v.id == origin.id,
            v.owner == origin.owner,
            is_struct_view(v.value, origin.value),
    {
        AnnotatedObjectView {
            id: origin.id,
            owner: origin.owner,
            value: AnnotatedMoveStructView::from(origin.value),
        }
    }
}

/// A script call as shown to clients; code and arguments are shown as hex.
#[derive(Debug)]
pub struct ScriptCallView {
    pub code: Vec<u8>,
    pub ty_args: Vec<TypeTag>,
    pub args: Vec<Vec<u8>>,
}

impl View for ScriptCallView {
    type V = ScriptCallModel;

    open spec fn view(&self) -> ScriptCallModel {
        ScriptCallModel {
            code: self.code@,
            ty_args: type_tags_model(self.ty_args@),
            args: self.args.deep_view(),
        }
    }
}

impl ScriptCallView {
    pub fn from(origin: ScriptCall) -> (v: ScriptCallView)
        ensures
            v@ == origin@,
    {
        ScriptCallView { code: origin.code, ty_args: origin.ty_args, args: origin.args }
    }
}

impl ScriptCall {
    pub fn from(value: ScriptCallView) -> (c: ScriptCall)
        ensures
            c@ == value@,
    {
        ScriptCall { code: value.code, ty_args: value.ty_args, args: value.args }
    }
}

/// A function call as shown to clients.
#[derive(Debug)]
pub struct FunctionCallView {
    pub function_id: FunctionId,
    pub ty_args: Vec<TypeTag>,
    pub args: Vec<Vec<u8>>,
}

impl View for FunctionCallView {
    type V = FunctionCallModel;

    open spec fn view(&self) -> FunctionCallModel {
        FunctionCallModel {
            function_id: self.function_id@,
            ty_args: type_tags_model(self.ty_args@),
            args: self.args.deep_view(),
        }
    }
}

impl FunctionCallView {
    pub fn from(origin: FunctionCall) -> (v: FunctionCallView)
        ensures
            v@ == origin@,
    {
        FunctionCallView {
            function_id: origin.function_id,
            ty_args: origin.ty_args,
            args: origin.args,
        }
    }
}

impl FunctionCall {
    pub fn from(value: FunctionCallView) -> (c: FunctionCall)
        ensures
            c@ == value@,
    {
        FunctionCall { function_id: value.function_id, ty_args: value.ty_args, args: value.args }
    }
}

/// A Move action as shown to clients: exactly one of the three fields is set
/// for an action that came from a [`MoveAction`].
#[derive(Debug)]
pub struct MoveActionView {
    pub function_call: Option<FunctionCallView>,
    pub script_call: Option<ScriptCallView>,
    pub module_bundle: Option<Vec<Vec<u8>>>,
}

/// The mathematical value of a [`MoveActionView`].
pub struct MoveActionViewModel {
    pub function_call: Option<FunctionCallModel>,
    pub script_call: Option<ScriptCallModel>,
    pub module_bundle: Option<Seq<Seq<u8>>>,
}

impl View for MoveActionView {
    type V = MoveActionViewModel;

    open spec fn view(&self) -> MoveActionViewModel {
        MoveActionViewModel {
            function_call: match self.function_call {
                Some(c) => Some(c@),
                None => None,
            },
            script_call: match self.script_call {
                Some(c) => Some(c@),
                None => None,
            },
            module_bundle: match self.module_bundle {
                Some(m) => Some(m.deep_view()),
                None => None,
            },
        }
    }
}

/// The view of an action: the field for its kind set, the others empty.
pub open spec fn action_view_model(a: MoveActionModel) -> MoveActionViewModel {
    match a {
        MoveActionModel::Script(c) => MoveActionViewModel {
            function_call: None,
            script_call: Some(c),
            module_bundle: None,
        },
        MoveActionModel::Function(c) => MoveActionViewModel {
            function_call: Some(c),
            script_call: None,
            module_bundle: None,
        },
        MoveActionModel::ModuleBundle(m) => MoveActionViewModel {
            function_call: None,
            script_call: None,
            module_bundle: Some(m),
        },
    }
}

/// Whether a view sets at least one of its fields, so that it reads as an action.
pub open spec fn action_view_is_set(v: MoveActionViewModel) -> bool {
    v.script_call is Some || v.function_call is Some || v.module_bundle is Some
}

/// The action that a view reads as: the script call if it is set, else the
/// function call if it is set, else the module bundle.
pub open spec fn action_of_view_model(v: MoveActionViewModel) -> MoveActionModel
    recommends
        action_view_is_set(v),
{
    if v.script_call is Some {
        MoveActionModel::Script(v.script_call->0)
    } else if v.function_call is Some {
        MoveActionModel::Function(v.function_call->0)
    } else {
        MoveActionModel::ModuleBundle(v.module_bundle->0)
    }
}

impl MoveActionView {
    pub fn from(action: MoveAction) -> (v: MoveActionView)
        ensures
            v@ == action_view_model(action@),
    {
        match action {
            MoveAction::Script(script) => MoveActionView {
                script_call: Some(ScriptCallView::from(script)),
                function_call: None,
                module_bundle: None,
            },
            MoveAction::Function(fun) => MoveActionView {
                script_call: None,
                function_call: Some(FunctionCallView::from(fun)),
                module_bundle: None,
            },
            MoveAction::ModuleBundle(module) => MoveActionView {
                script_call: None,
                function_call: None,
                module_bundle: Some(module),
            },
        }
    }
}

impl MoveAction {
    /// The action a view reads as; a view that sets none of its fields is
    /// no action.
    pub fn from(action: MoveActionView) -> (a: MoveAction)
        requires
            action_view_is_set(action@),
        ensures
            a@ == action_of_view_model(action@),
    {
        if let Some(script_call) = action.script_call {
            MoveAction::Script(ScriptCall::from(script_call))
        } else if let Some(function_call) = action.function_call {
            MoveAction::Function(FunctionCall::from(function_call))
        } else if let Some(module_bundle) = action.module_bundle {
            MoveAction::ModuleBundle(module_bundle)
        } else {
            proof {
                assert(false);
            }
            MoveAction::ModuleBundle(Vec::new())
        }
    }
}

/// The kind of a Move action.
#[derive(Clone, Copy, Debug, PartialEq, Eq, Structural)]
pub enum MoveActionTypeView {
    ScriptCall,
    FunctionCall,
    ModuleBundle,
}

/// The kind of an action.
pub open spec fn action_type_of(a: MoveActionModel) -> MoveActionTypeView {
    match a {
        MoveActionModel::Script(_) => MoveActionTypeView::ScriptCall,
        MoveActionModel::Function(_) => MoveActionTypeView::FunctionCall,
        MoveActionModel::ModuleBundle(_) => MoveActionTypeView::ModuleBundle,
    }
}

impl MoveActionTypeView {
    pub fn from(action: MoveAction) -> (t: MoveActionTypeView)
        ensures
            t == action_type_of(action@),
    {
        match action {
            MoveAction::Script(_) => MoveActionTypeView::ScriptCall,
            MoveAction::Function(_) => MoveActionTypeView::FunctionCall,
            MoveAction::ModuleBundle(_) => MoveActionTypeView::ModuleBundle,
        }
    }
}

/// Reading back the view of an action gives the action.
pub proof fn law_action_view_round_trip(a: MoveActionModel)
    ensures
        action_view_is_set(action_view_model(a)),
        action_of_view_model(action_view_model(a)) == a,
{
}

/// A view that sets exactly one field is the view of the action it reads as.
pub proof fn law_action_view_read_back(v: MoveActionViewModel)
    requires
        (v.script_call is Some) as int + (v.function_call is Some) as int + (v.module_bundle is Some) as int == 1,
    ensures
        action_view_model(action_of_view_model(v)) == v,
{
}

/// The kind of an action names the one field that its view sets.
pub proof fn law_action_type_names_view_field(a: MoveActionModel)
    ensures
        (action_type_of(a) == MoveActionTypeView::ScriptCall) == (action_view_model(a).script_call is Some),
        (action_type_of(a) == MoveActionTypeView::FunctionCall) == (action_view_model(a).function_call is Some),
        (action_type_of(a) == MoveActionTypeView::ModuleBundle) == (action_view_model(a).module_bundle is Some),
{
}

/// An event as shown to clients, with its data decoded where it is known.
#[derive(Debug)]
pub struct EventView {
    pub event_id: EventID,
    pub type_tag: TypeTag,
    pub event_data: Vec<u8>,
    pub event_index: u64,
    pub decoded_event_data: Option<AnnotatedMoveStructView>,
}

impl EventView {
    pub fn from(event: Event) -> (v: EventView)
        ensures
            v.event_id == event.event_id,
            v.type_tag@ == event.type_tag@,
            v.event_data@ == event.event_data@,
            v.event_index == event.event_index,
            v.decoded_event_data is None,
    {
        EventView {
            event_id: event.event_id,
            type_tag: event.type_tag,
            event_data: event.event_data,
            event_index: event.event_index,
            decoded_event_data: None,
        }
    }

    pub fn from_annotated_event(event: AnnotatedEvent) -> (v: EventView)
        ensures
            v.event_id == event.event.event_id,
            v.type_tag@ == event.event.type_tag@,
            v.event_data@ == event.event.event_data@,
            v.event_index == event.event.event_index,
            v.decoded_event_data matches Some(d) && is_struct_view(d, event.decoded_event_data),
    {
        EventView {
            event_id: event.event.event_id,
            type_tag: event.event.type_tag,
            event_data: event.event.event_data,
            event_index: event.event.event_index,
            decoded_event_data: Some(AnnotatedMoveStructView::from(event.decoded_event_data)),
        }
    }
}

impl Event {
    pub fn from(event: EventView) -> (e: Event)
        ensures
            e@ == (EventModel {
                event_id: event.event_id,
                type_tag: event.type_tag@,
                event_data: event.event_data@,
                event_index: event.event_index,
            }),
    {
        Event {
            event_id: event.event_id,
            type_tag: event.type_tag,
            event_data: event.event_data,
            event_index: event.event_index,
        }
    }
}

/// A struct type's name as shown to clients.
#[derive(Debug)]
pub struct TypeInfoView {
    pub account_address: AccountAddress,
    pub module_name: Vec<u8>,
    pub struct_name: Vec<u8>,
}

impl View for TypeInfoView {
    type V = TypeInfoModel;

    open spec fn view(&self) -> TypeInfoModel {
        TypeInfoModel {
            account_address: self.account_address,
            module_name: self.module_name@,
            struct_name: self.struct_name@,
        }
    }
}

impl TypeInfoView {
    pub fn from(type_info: TypeInfo) -> (v: TypeInfoView)
        ensures
            v@ == type_info@,
    {
        TypeInfoView {
            account_address: type_info.account_address,
            module_name: type_info.module_name,
            struct_name: type_info.struct_name,
        }
    }
}

impl TypeInfo {
    pub fn from(type_info: TypeInfoView) -> (t: TypeInfo)
        ensures
            t@ == type_info@,
    {
        TypeInfo {
            account_address: type_info.account_address,
            module_name: type_info.module_name,
            struct_name: type_info.struct_name,
        }
    }
}


/// Whether a decoded value is a primitive: a number, a boolean or an address.
pub open spec fn is_primitive_value(o: AnnotatedMoveValue) -> bool {
    match o {
        AnnotatedMoveValue::U8(_) | AnnotatedMoveValue::U16(_) | AnnotatedMoveValue::U32(_)
        | AnnotatedMoveValue::U64(_) | AnnotatedMoveValue::U128(_) | AnnotatedMoveValue::U256(_)
        | AnnotatedMoveValue::Bool(_) | AnnotatedMoveValue::Address(_) => true,
        _ => false,
    }
}

/// The primitive value that a client reads from a primitive view.
pub open spec fn primitive_read_back(v: AnnotatedMoveValueView) -> Option<AnnotatedMoveValue> {
    match v {
        AnnotatedMoveValueView::U8(x) => Some(AnnotatedMoveValue::U8(x)),
        AnnotatedMoveValueView::U16(x) => Some(AnnotatedMoveValue::U16(x)),
        AnnotatedMoveValueView::U32(x) => Some(AnnotatedMoveValue::U32(x)),
        AnnotatedMoveValueView::U64(x) => Some(AnnotatedMoveValue::U64(x)),
        AnnotatedMoveValueView::U128(x) => Some(AnnotatedMoveValue::U128(x)),
        AnnotatedMoveValueView::U256(x) => Some(AnnotatedMoveValue::U256(x)),
        AnnotatedMoveValueView::Bool(x) => Some(AnnotatedMoveValue::Bool(x)),
        AnnotatedMoveValueView::Address(x) => Some(AnnotatedMoveValue::Address(x)),
        _ => None,
    }
}

/// Reading back the view of a primitive value gives that value.
pub proof fn law_primitive_view_reads_back(v: AnnotatedMoveValueView, o: AnnotatedMoveValue)
    requires
        is_primitive_value(o),
        is_value_view(v, o),
    ensures
        primitive_read_back(v) == Some(o),
{
}

/// Distinct primitive values have distinct views.
pub proof fn law_primitive_view_is_injective(v: AnnotatedMoveValueView, o1: AnnotatedMoveValue, o2: AnnotatedMoveValue)
    requires
        is_primitive_value(o1),
        is_primitive_value(o2),
        is_value_view(v, o1),
        is_value_view(v, o2),
    ensures
        o1 == o2,
{
    law_primitive_view_reads_back(v, o1);
    law_primitive_view_reads_back(v, o2);
}

/// The view of a decoded struct has the struct's abilities and its full tag,
/// type arguments included, and a field of each of the struct's names only.
pub proof fn law_struct_view_keeps_type(v: AnnotatedMoveStructView, s: AnnotatedMoveStruct)
    requires
        is_struct_view(v, s),
    ensures
        v.type_@ == s.type_@,
        v.abilities == s.abilities,
        forall|i: int| 0 <= i < s.value.len() ==> v.value@.contains_key((#[trigger] s.value@[i]).0@),
{
    assert forall|i: int| 0 <= i < s.value.len() implies v.value@.contains_key((#[trigger] s.value@[i]).0@) by {
        lemma_last_of_name_exists(s.value@, i);
        let j = choose|j: int| i <= j < s.value.len() && s.value@[j].0@ == s.value@[i].0@ && is_last_of_name(s.value@, j);
        assert(v.value@.contains_key(s.value@[j].0@));
    }
}

/// Every field has a last field of its name, at or after it.
proof fn lemma_last_of_name_exists(fields: Seq<(String, AnnotatedMoveValue)>, i: int)
    requires
        0 <= i < fields.len(),
    ensures
        exists|j: int| i <= j < fields.len() && fields[j].0@ == fields[i].0@ && is_last_of_name(fields, j),
    decreases fields.len() - i,
{
    if is_last_of_name(fields, i) {
        assert(i <= i < fields.len() && fields[i].0@ == fields[i].0@ && is_last_of_name(fields, i));
    } else {
        let k = choose|k: int| i < k < fields.len() && (#[trigger] fields[k]).0@ == fields[i].0@;
        lemma_last_of_name_exists(fields, k);
    }
}

/// A decoded struct with no view of its own is shown as a struct with the
/// same tag.
pub proof fn law_plain_struct_value_view_keeps_type(v: AnnotatedMoveValueView, s: AnnotatedMoveStruct)
    requires
        !has_specific_view(s),
        is_value_view(v, AnnotatedMoveValue::Struct(s)),
    ensures
        v matches AnnotatedMoveValueView::Struct(sv) && sv.type_@ == s.type_@ && sv.abilities == s.abilities,
{
    if let AnnotatedMoveValueView::Struct(sv) = v {
        assert(is_struct_view(sv, s));
    }
}

/// The three specific struct types have distinct tags.
proof fn lemma_specific_tags_distinct()
    ensures
        spec_struct_tag::<MoveString>() != spec_struct_tag::<MoveAsciiString>(),
        spec_struct_tag::<MoveString>() != spec_struct_tag::<ObjectID>(),
        spec_struct_tag::<MoveAsciiString>() != spec_struct_tag::<ObjectID>(),
{
    reveal_strlit("string");
    reveal_strlit("ascii");
    assert("string"@[0] != "ascii"@[0]);
}

/// Every struct of type `0x1::string::String` whose last field holds bytes,
/// whatever the bytes (none included), is shown as the string of those bytes.
pub proof fn law_string_struct_has_string_view(s: AnnotatedMoveStruct, v: SpecificStructView)
    requires
        s.type_@ == spec_struct_tag::<MoveString>(),
        s.value.len() > 0,
        s.value@.last().1 is Bytes,
    ensures
        has_specific_view(s),
        is_specific_view(v, s) <==> (v matches SpecificStructView::MoveString(m) && m.bytes@ == s.value@.last().1->Bytes_0@),
{
}

/// Every struct of type `0x1::ascii::String` whose last field holds bytes,
/// whatever the bytes, is shown as the ASCII string of those bytes.
pub proof fn law_ascii_struct_has_ascii_view(s: AnnotatedMoveStruct, v: SpecificStructView)
    requires
        s.type_@ == spec_struct_tag::<MoveAsciiString>(),
        s.value.len() > 0,
        s.value@.last().1 is Bytes,
    ensures
        has_specific_view(s),
        is_specific_view(v, s) <==> (v matches SpecificStructView::MoveAsciiString(m) && m.bytes@ == s.value@.last().1->Bytes_0@),
{
    lemma_specific_tags_distinct();
}

/// Every struct of type `0x2::object::ObjectID` whose last field holds an
/// address is shown as the object id of that address.
pub proof fn law_object_id_struct_has_id_view(s: AnnotatedMoveStruct, v: SpecificStructView)
    requires
        s.type_@ == spec_struct_tag::<ObjectID>(),
        s.value.len() > 0,
        s.value@.last().1 is Address,
    ensures
        has_specific_view(s),
        is_specific_view(v, s) <==> v == SpecificStructView::ObjectID(ObjectID(s.value@.last().1->Address_0)),
{
    lemma_specific_tags_distinct();
}

/// Only structs of the three specific types have a view of their own.
pub proof fn law_specific_view_needs_specific_type(s: AnnotatedMoveStruct)
    requires
        has_specific_view(s),
    ensures
        s.type_@ == spec_struct_tag::<MoveString>() || s.type_@ == spec_struct_tag::<MoveAsciiString>()
            || s.type_@ == spec_struct_tag::<ObjectID>(),
{
}

} // verus!

use vstd::prelude::*;
use crate::account::{AccountAddress, ObjectID};
use crate::type_tag::{TypeTag, TypeTagModel, type_tags_model};
use crate::annotated::AnnotatedMoveStruct;

verus! {

/// A Move module: the address that holds it and its name.
#[derive(Debug)]
pub struct ModuleId {
    pub address: AccountAddress,
    pub name: String,
}

/// A function of a Move module.
#[derive(Debug)]
pub struct FunctionId {
    pub module_id: ModuleId,
    pub function_name: String,
}

/// A call of a Move script: its bytecode, its type arguments and its
/// arguments, each argument as its bytes.
#[derive(Debug)]
pub struct ScriptCall {
    pub code: Vec<u8>,
    pub ty_args: Vec<TypeTag>,
    pub args: Vec<Vec<u8>>,
}

/// A call of a function of a published Move module.
#[derive(Debug)]
pub struct FunctionCall {
    pub function_id: FunctionId,
    pub ty_args: Vec<TypeTag>,
    pub args: Vec<Vec<u8>>,
}

/// What a transaction asks the Move VM to do: run a script, call a function,
/// or publish a bundle of modules (each module as its bytecode).
#[derive(Debug)]
pub enum MoveAction {
    Script(ScriptCall),
    Function(FunctionCall),
    ModuleBundle(Vec<Vec<u8>>),
}

/// The mathematical value of a [`FunctionId`]: module address, module name and function name.
pub struct FunctionIdModel {
    pub address: AccountAddress,
    pub module: Seq<char>,
    pub function_name: Seq<char>,
}

/// The mathematical value of a script call.
pub struct ScriptCallModel {
    pub code: Seq<u8>,
    pub ty_args: Seq<TypeTagModel>,
    pub args: Seq<Seq<u8>>,
}

/// The mathematical value of a function call.
pub struct FunctionCallModel {
    pub function_id: FunctionIdModel,
    pub ty_args: Seq<TypeTagModel>,
    pub args: Seq<Seq<u8>>,
}

/// The mathematical value of a [`MoveAction`].
pub enum MoveActionModel {
    Script(ScriptCallModel),
    Function(FunctionCallModel),
    ModuleBundle(Seq<Seq<u8>>),
}

impl View for FunctionId {
    type V = FunctionIdModel;

    open spec fn view(&self) -> FunctionIdModel {
        FunctionIdModel {
            address: self.module_id.address,
            module: self.module_id.name@,
            function_name: self.function_name@,
        }
    }
}

impl View for ScriptCall {
    type V = ScriptCallModel;

    open spec fn view(&self) -> ScriptCallModel {
        ScriptCallModel {
            code: self.code@,
            ty_args: type_tags_model(self.ty_args@),
            args: self.args.deep_view(),
        }
    }
}

impl View for FunctionCall {
    type V = FunctionCallModel;

    open spec fn view(&self) -> FunctionCallModel {
        FunctionCallModel {
            function_id: self.function_id@,
            ty_args: type_tags_model(self.ty_args@),
            args: self.args.deep_view(),
        }
    }
}

impl View for MoveAction {
    type V = MoveActionModel;

    open spec fn view(&self) -> MoveActionModel {
        match self {
            MoveAction::Script(call) => MoveActionModel::Script(call@),
            MoveAction::Function(call) => MoveActionModel::Function(call@),
            MoveAction::ModuleBundle(modules) => MoveActionModel::ModuleBundle(modules.deep_view()),
        }
    }
}

/// The identifier of an event: the event handle it was emitted to and its
/// sequence number there.
#[derive(Clone, Copy, Debug, PartialEq, Eq, Structural)]
pub struct EventID {
    pub event_handle_id: ObjectID,
    pub event_seq: u64,
}

/// An event emitted by a transaction: its id, its type, its data as the bytes
/// of a Move value, and its index among the transaction's events.
#[derive(Debug)]
pub struct Event {
    pub event_id: EventID,
    pub type_tag: TypeTag,
    pub event_data: Vec<u8>,
    pub event_index: u64,
}

/// An event together with its data decoded by the event's type.
#[derive(Debug)]
pub struct AnnotatedEvent {
    pub event: Event,
    pub decoded_event_data: AnnotatedMoveStruct,
}

/// The mathematical value of an [`Event`].
pub struct EventModel {
    pub event_id: EventID,
    pub type_tag: TypeTagModel,
    pub event_data: Seq<u8>,
    pub event_index: u64,
}

impl View for Event {
    type V = EventModel;

    open spec fn view(&self) -> EventModel {
        EventModel {
            event_id: self.event_id,
            type_tag: self.type_tag@,
            event_data: self.event_data@,
            event_index: self.event_index,
        }
    }
}

/// The name of a Move struct type: the address of its module, the module's
/// name and the struct's name, the names as their bytes.
#[derive(Debug)]
pub struct TypeInfo {
    pub account_address: AccountAddress,
    pub module_name: Vec<u8>,
    pub struct_name: Vec<u8>,
}

/// The mathematical value of a [`TypeInfo`].
pub struct TypeInfoModel {
    pub account_address: AccountAddress,
    pub module_name: Seq<u8>,
    pub struct_name: Seq<u8>,
}

impl View for TypeInfo {
    type V = TypeInfoModel;

    open spec fn view(&self) -> TypeInfoModel {
        TypeInfoModel {
            account_address: self.account_address,
            module_name: self.module_name@,
            struct_name: self.struct_name@,
        }
    }
}

} // verus!

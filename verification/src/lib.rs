//! The types of the MoveOS state store and of its JSON-RPC views, with
//! their behaviour stated and proved: Move type tags and value layouts,
//! states and their types, the decoding-free checks on them, the change sets
//! of a transaction, and the conversions between stored values and the views
//! that clients read.

pub mod account;
pub mod type_tag;
pub mod layout;
pub mod move_traits;
pub mod object;
pub mod annotated;
pub mod state;
pub mod keyed_map;
pub mod change_set;
pub mod transaction;
pub mod event_filter;
pub mod views;

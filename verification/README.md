# moveos_types

The types of the MoveOS state store and of its JSON-RPC views, written in
Verus with their behaviour stated in contracts and proved.

- `src/` is the verified library:
  - `account`, `type_tag`, `layout`: Move addresses, type tags and value
    layouts, with their mathematical models, decision procedures for equality
    and layout matching, and the laws of layout matching.
  - `move_traits`, `object`: the traits that tie Rust types to Move types
    (`MoveType`, `MoveStructType`, `MoveState`, `MoveStructState`) and their
    implementations for the primitive types, strings, object ids and objects.
  - `state`, `annotated`: states of the store, object detection and the type
    checks made before a state's bytes are decoded.
  - `keyed_map`, `change_set`: ordered maps with distinct keys, and the change
    sets and state dumps built on them.
  - `transaction`, `event_filter`, `views`: transactions, events and event
    filters, and their client views.
- `tests/` runs the library on concrete values.
- `app/` holds what lives at the edges: conversion from and to the Move core
  types, BCS encoding of states, the JSON form of the views and text output.

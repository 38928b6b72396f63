//! Idempotent actions: what a mutating engine operation reports it did, and
//! the payloads that a reply carries for each outcome.
use vstd::prelude::*;

verus! {

/// Outcome of a create-style operation.
pub enum CreateAction<T> {
    Created(T),
    Identity,
}

/// Outcome of a delete-style operation.
pub enum DeleteAction<T> {
    Deleted(T),
    Identity,
}

/// Outcome of registering a value under a key.
pub enum MappingCreateAction<T> {
    Created(T),
    ValueChanged(T),
    Identity,
}

/// Outcome of removing the value registered under a key.
pub enum MappingDeleteAction<T> {
    Deleted(T),
    Identity,
}

/// The `(set, changed)` pair reported for a mapping-create outcome.
pub open spec fn mapping_create_flags<T>(a: MappingCreateAction<T>) -> (bool, bool) {
    match a {
        MappingCreateAction::Created(_) => (true, false),
        MappingCreateAction::ValueChanged(_) => (true, true),
        MappingCreateAction::Identity => (false, false),
    }
}

/// Whether a mapping-delete outcome removed anything.
pub open spec fn mapping_delete_flag<T>(a: MappingDeleteAction<T>) -> bool {
    a is Deleted
}

/// The `(set, changed)` pair for a mapping-create outcome: a new value is set
/// and unchanged, an overwritten value is set and changed, a no-op is neither.
pub fn mapping_create_payload<T>(a: &MappingCreateAction<T>) -> (r: (bool, bool))
    ensures
        r == mapping_create_flags(*a),
{
    match a {
        MappingCreateAction::Created(_) => (true, false),
        MappingCreateAction::ValueChanged(_) => (true, true),
        MappingCreateAction::Identity => (false, false),
    }
}

/// Whether a mapping-delete outcome removed a value.
pub fn mapping_delete_payload<T>(a: &MappingDeleteAction<T>) -> (r: bool)
    ensures
        r == mapping_delete_flag(*a),
{
    match a {
        MappingDeleteAction::Deleted(_) => true,
        MappingDeleteAction::Identity => false,
    }
}

} // verus!

use vstd::prelude::*;
use crate::model::{Dog, DogPatchPayload, DogPayload, FieldPatch};

verus! {

/// The value a nullable field takes under a patch.
pub open spec fn patched<T>(current: Option<T>, patch: FieldPatch<T>) -> Option<T> {
    match patch {
        FieldPatch::Unset => current,
        FieldPatch::Null => None,
        FieldPatch::Value(v) => Some(v),
    }
}

/// The values a partial update writes over the stored dog `current`: each
/// field present in the patch overrides, a null clears, an absent field keeps
/// what is stored.
pub open spec fn merged(current: Dog, patch: DogPatchPayload) -> DogPayload {
    DogPayload {
        name: match patch.name {
            Some(n) => n,
            None => current.name,
        },
        age: match patch.age {
            Some(a) => a,
            None => current.age,
        },
        breed_id: patched(current.breed_id, patch.breed_id),
    }
}

/// Applies a tri-state field patch to a nullable value.
pub fn apply_field_patch<T: Copy>(current: Option<T>, patch: FieldPatch<T>) -> (r: Option<T>)
    ensures
        r == patched(current, patch),
{
    match patch {
        FieldPatch::Unset => current,
        FieldPatch::Null => None,
        FieldPatch::Value(v) => Some(v),
    }
}

/// Computes the values that a partial update writes.
pub fn merge_patch(current: &Dog, patch: &DogPatchPayload) -> (r: DogPayload)
    ensures
        r == merged(*current, *patch),
{
    let name = match &patch.name {
        Some(n) => n.clone(),
        None => current.name.clone(),
    };
    let age = match patch.age {
        Some(a) => a,
        None => current.age,
    };
    DogPayload { name, age, breed_id: apply_field_patch(current.breed_id, patch.breed_id) }
}

} // verus!

use vstd::prelude::*;
use crate::dog_service::{
    create_outcome, delete_outcome, full_update_outcome, get_outcome, partial_update_outcome,
    rows_after_create, rows_after_delete, rows_after_update,
};
use crate::error::{ServiceError, ValidationError, STATUS_NOT_FOUND};
use crate::model::{Breed, Dog, DogPatchPayload, DogPayload, FieldPatch};
use crate::rules::{blank, valid_name};
use crate::service::delete_status_of;
use crate::store::{
    breed_index, breed_rows_wf, dog_index, dog_rows_wf, find_breed, find_dog, has_breed, has_dog,
    joined, lemma_dog_index, lemma_dog_push,
};

verus! {

/// Creating a valid dog assigns an id that no stored dog had, and getting
/// that id afterwards returns exactly the submitted fields.
pub proof fn law_create_then_get(rows: Seq<Dog>, next_id: i32, p: DogPayload)
    requires
        dog_rows_wf(rows, next_id),
        next_id < i32::MAX,
        valid_name(p.name@),
        0 <= p.age <= 30,
    ensures
        create_outcome(next_id, p) == Ok::<Dog, ServiceError>(Dog::row(next_id, p)),
        !has_dog(rows, next_id),
        get_outcome(rows_after_create(rows, create_outcome(next_id, p)), next_id) == Ok::<
            Dog,
            ServiceError,
        >(Dog::row(next_id, p)),
        DogPayload::of_dog(Dog::row(next_id, p)) == p,
{
    lemma_dog_push(rows, next_id, Dog::row(next_id, p));
}

/// A dog whose name is blank is refused with `EmptyName`, and nothing is
/// stored.
pub proof fn law_blank_name_refused(rows: Seq<Dog>, next_id: i32, p: DogPayload)
    requires
        blank(p.name@),
    ensures
        create_outcome(next_id, p) == Err::<Dog, ServiceError>(
            ServiceError::Validation(ValidationError::EmptyName),
        ),
        rows_after_create(rows, create_outcome(next_id, p)) == rows,
{
}

/// With a valid name, an age below 0 or above 30 is refused with
/// `AgeOutOfRange`, and every age from 0 to 30, both ends included, is
/// accepted while ids remain.
pub proof fn law_age_range(next_id: i32, p: DogPayload)
    requires
        valid_name(p.name@),
    ensures
        p.age < 0 || p.age > 30 ==> create_outcome(next_id, p) == Err::<Dog, ServiceError>(
            ServiceError::Validation(ValidationError::AgeOutOfRange),
        ),
        0 <= p.age <= 30 && next_id < i32::MAX ==> create_outcome(next_id, p) is Ok,
{
}

/// Getting an id that was never assigned is `NotFound`.
pub proof fn law_get_unassigned(rows: Seq<Dog>, next_id: i32, id: i32)
    requires
        dog_rows_wf(rows, next_id),
        id >= next_id,
    ensures
        get_outcome(rows, id) == Err::<Dog, ServiceError>(ServiceError::NotFound),
{
    if has_dog(rows, id) {
        let k = dog_index(rows, id);
        assert(rows[k].id < next_id);
    }
}

/// A patch that sets only the age of a stored dog changes the age and keeps
/// the name and the breed.
pub proof fn law_patch_age_only(rows: Seq<Dog>, next_id: i32, id: i32, age: i32)
    requires
        dog_rows_wf(rows, next_id),
        has_dog(rows, id),
        0 <= age <= 30,
    ensures
        ({
            let current = find_dog(rows, id)->Some_0;
            let patch = DogPatchPayload { name: None, age: Some(age), breed_id: FieldPatch::Unset };
            let r = partial_update_outcome(rows, id, patch);
            &&& r == Ok::<Dog, ServiceError>(
                Dog { id, name: current.name, age, breed_id: current.breed_id },
            )
            &&& rows_after_update(rows, id, r)[dog_index(rows, id)] == r->Ok_0
        }),
{
    let k = dog_index(rows, id);
    lemma_dog_index(rows, next_id, k);
}

/// A patch with a null breed clears the breed of a stored dog and keeps the
/// rest.
pub proof fn law_patch_clears_breed(rows: Seq<Dog>, next_id: i32, id: i32)
    requires
        dog_rows_wf(rows, next_id),
        has_dog(rows, id),
    ensures
        ({
            let current = find_dog(rows, id)->Some_0;
            let patch = DogPatchPayload { name: None, age: None, breed_id: FieldPatch::Null };
            partial_update_outcome(rows, id, patch) == Ok::<Dog, ServiceError>(
                Dog { id, name: current.name, age: current.age, breed_id: None },
            )
        }),
{
    let k = dog_index(rows, id);
    lemma_dog_index(rows, next_id, k);
}

/// An empty patch of a stored dog returns the dog as it was and leaves the
/// stored rows identical.
pub proof fn law_empty_patch_identity(rows: Seq<Dog>, next_id: i32, id: i32)
    requires
        dog_rows_wf(rows, next_id),
        has_dog(rows, id),
    ensures
        ({
            let patch = DogPatchPayload { name: None, age: None, breed_id: FieldPatch::Unset };
            let r = partial_update_outcome(rows, id, patch);
            &&& r == Ok::<Dog, ServiceError>(find_dog(rows, id)->Some_0)
            &&& rows_after_update(rows, id, r) == rows
        }),
{
    let k = dog_index(rows, id);
    lemma_dog_index(rows, next_id, k);
    let patch = DogPatchPayload { name: None, age: None, breed_id: FieldPatch::Unset };
    let r = partial_update_outcome(rows, id, patch);
    assert(rows.update(k, rows[k]) =~= rows);
}

/// Deleting a stored dog reports success, after which getting it is
/// `NotFound`; deleting a missing id is `NotFound`, answered with a 404.
pub proof fn law_delete_then_get(rows: Seq<Dog>, next_id: i32, id: i32)
    requires
        dog_rows_wf(rows, next_id),
    ensures
        has_dog(rows, id) ==> delete_outcome(rows, id) == Ok::<bool, ServiceError>(true)
            && get_outcome(rows_after_delete(rows, id), id) == Err::<Dog, ServiceError>(
            ServiceError::NotFound,
        ),
        !has_dog(rows, id) ==> delete_outcome(rows, id) == Err::<bool, ServiceError>(
            ServiceError::NotFound,
        ) && delete_status_of(delete_outcome(rows, id)) == STATUS_NOT_FOUND,
{
    if has_dog(rows, id) {
        let k = dog_index(rows, id);
        let after = rows.remove(k);
        if has_dog(after, id) {
            let j = dog_index(after, id);
            if j < k {
                assert(after[j] == rows[j]);
                assert(rows[j].id < rows[k].id);
            } else {
                assert(after[j] == rows[j + 1]);
                assert(rows[k].id < rows[j + 1].id);
            }
        }
    }
}

/// A dog without a breed, or whose breed no longer exists, joins with a
/// null breed name; one whose breed exists joins with that breed's name.
pub proof fn law_join_breed_name(d: Dog, breeds: Seq<Breed>)
    ensures
        d.breed_id is None ==> joined(d, breeds).breed_name is None,
        d.breed_id is Some && !has_breed(breeds, d.breed_id->Some_0) ==> joined(d, breeds).breed_name is None,
        d.breed_id is Some && has_breed(breeds, d.breed_id->Some_0) ==> joined(d, breeds).breed_name
            == Some(find_breed(breeds, d.breed_id->Some_0)->Some_0.name),
{
}

/// Once the breed of a dog is deleted, the dog joins with a null breed name.
pub proof fn law_join_after_breed_delete(d: Dog, breeds: Seq<Breed>, next_id: i32, b: i32)
    requires
        breed_rows_wf(breeds, next_id),
        has_breed(breeds, b),
        d.breed_id == Some(b),
    ensures
        joined(d, breeds.remove(breed_index(breeds, b))).breed_name is None,
{
    let k = breed_index(breeds, b);
    let after = breeds.remove(k);
    if has_breed(after, b) {
        let j = breed_index(after, b);
        if j < k {
            assert(after[j] == breeds[j]);
            assert(breeds[j].id < breeds[k].id);
        } else {
            assert(after[j] == breeds[j + 1]);
            assert(breeds[k].id < breeds[j + 1].id);
        }
    }
}

/// Issuing the same full update twice gives the same outcome and leaves the
/// same rows as issuing it once.
pub proof fn law_full_update_idempotent(rows: Seq<Dog>, next_id: i32, id: i32, p: DogPayload)
    requires
        dog_rows_wf(rows, next_id),
    ensures
        ({
            let r1 = full_update_outcome(rows, id, p);
            let rows1 = rows_after_update(rows, id, r1);
            let r2 = full_update_outcome(rows1, id, p);
            &&& r2 == r1
            &&& rows_after_update(rows1, id, r2) == rows1
        }),
{
    let r1 = full_update_outcome(rows, id, p);
    let rows1 = rows_after_update(rows, id, r1);
    if r1 is Ok {
        let k = dog_index(rows, id);
        lemma_dog_index(rows, next_id, k);
        assert(dog_rows_wf(rows1, next_id));
        lemma_dog_index(rows1, next_id, k);
        assert(rows1.update(k, Dog::row(id, p)) =~= rows1);
    }
}

} // verus!

use vstd::prelude::*;
use crate::error::{ServiceError, ValidationError, STATUS_NOT_FOUND, STATUS_NO_CONTENT};
use crate::model::{Breed, BreedPayload, Dog, DogPatchPayload, DogPayload};
use crate::pagination::{paginate, page_slice, PaginationParams};
use crate::patch::{merge_patch, merged};
use crate::rules::{
    breed_payload_verdict, dog_patch_verdict, dog_payload_verdict, validate_breed_payload,
    validate_dog_patch, validate_dog_payload,
};

verus! {

/// A validation verdict as a service outcome.
pub open spec fn lift(v: Result<(), ValidationError>) -> Result<(), ServiceError> {
    match v {
        Ok(()) => Ok(()),
        Err(e) => Err(ServiceError::Validation(e)),
    }
}

/// An existence check: a row that was not found is a `NotFound`.
pub open spec fn found<T>(row: Option<T>) -> Result<T, ServiceError> {
    match row {
        Some(r) => Ok(r),
        None => Err(ServiceError::NotFound),
    }
}

fn lift_verdict(v: Result<(), ValidationError>) -> (r: Result<(), ServiceError>)
    ensures
        r == lift(v),
{
    match v {
        Ok(()) => Ok(()),
        Err(e) => Err(ServiceError::Validation(e)),
    }
}

/// Turns the result of a lookup into the row or a `NotFound`.
pub fn require_found<T>(row: Option<T>) -> (r: Result<T, ServiceError>)
    ensures
        r == found(row),
{
    match row {
        Some(x) => Ok(x),
        None => Err(ServiceError::NotFound),
    }
}

/// Decides a dog creation before the insert: the payload must be valid.
pub fn plan_create_dog(p: &DogPayload) -> (r: Result<(), ServiceError>)
    ensures
        r == lift(dog_payload_verdict(*p)),
{
    lift_verdict(validate_dog_payload(p))
}

/// What a full update decides once the current row has been looked up.
pub open spec fn full_update_plan(current: Option<Dog>, p: DogPayload) -> Result<(), ServiceError> {
    match current {
        None => Err(ServiceError::NotFound),
        Some(_) => lift(dog_payload_verdict(p)),
    }
}

/// Decides a full update, given the row found under its id: the row must
/// exist, then the payload must be valid, age included.
pub fn plan_full_update(current: &Option<Dog>, p: &DogPayload) -> (r: Result<(), ServiceError>)
    ensures
        r == full_update_plan(*current, *p),
{
    match current {
        None => Err(ServiceError::NotFound),
        Some(_) => plan_create_dog(p),
    }
}

/// What a partial update writes, once the current row has been looked up:
/// the patch is checked first, then the row must exist.
pub open spec fn partial_update_plan(current: Option<Dog>, patch: DogPatchPayload) -> Result<
    DogPayload,
    ServiceError,
> {
    match dog_patch_verdict(patch) {
        Err(e) => Err(ServiceError::Validation(e)),
        Ok(()) => match current {
            None => Err(ServiceError::NotFound),
            Some(d) => Ok(merged(d, patch)),
        },
    }
}

/// Checks the fields that a partial update holds; done before the row is read.
pub fn plan_patch(patch: &DogPatchPayload) -> (r: Result<(), ServiceError>)
    ensures
        r == lift(dog_patch_verdict(*patch)),
{
    lift_verdict(validate_dog_patch(patch))
}

/// Decides a partial update given the row found under its id, and computes
/// the merged values to write.
pub fn plan_partial_update(current: &Option<Dog>, patch: &DogPatchPayload) -> (r: Result<
    DogPayload,
    ServiceError,
>)
    ensures
        r == partial_update_plan(*current, *patch),
{
    match plan_patch(patch) {
        Err(e) => Err(e),
        Ok(()) => match current {
            None => Err(ServiceError::NotFound),
            Some(d) => Ok(merge_patch(d, patch)),
        },
    }
}

/// The status of a delete: 204 when a row went, 404 when none did (also
/// when a concurrent delete won the race after the existence check).
pub open spec fn delete_status_of(outcome: Result<bool, ServiceError>) -> u16 {
    match outcome {
        Ok(true) => STATUS_NO_CONTENT,
        Ok(false) => STATUS_NOT_FOUND,
        Err(e) => e.spec_status(),
    }
}

pub fn delete_status(outcome: &Result<bool, ServiceError>) -> (r: u16)
    ensures
        r == delete_status_of(*outcome),
{
    match outcome {
        Ok(true) => STATUS_NO_CONTENT,
        Ok(false) => STATUS_NOT_FOUND,
        Err(e) => e.status(),
    }
}

/// The page of a full listing that the parameters ask for.
pub open spec fn listing<T>(all: Seq<T>, page: Option<u32>, limit: Option<u32>) -> Result<
    Seq<T>,
    ServiceError,
> {
    let params = PaginationParams { page, limit };
    if params.well_formed() {
        Ok(page_slice(all, params.spec_page(), params.spec_limit()))
    } else {
        Err(ServiceError::Validation(ValidationError::InvalidPagination))
    }
}

/// Cuts the requested page out of the full ordered listing.
pub fn list_page<T>(all: Vec<T>, page: Option<u32>, limit: Option<u32>) -> (r: Result<
    Vec<T>,
    ServiceError,
>)
    ensures
        r is Ok <==> listing(all@, page, limit) is Ok,
        r matches Ok(v) ==> listing(all@, page, limit) == Ok::<Seq<T>, ServiceError>(v@),
        r matches Err(e) ==> listing(all@, page, limit) == Err::<Seq<T>, ServiceError>(e),
{
    let params = PaginationParams { page, limit };
    match paginate(all, &params) {
        Ok(v) => Ok(v),
        Err(e) => Err(ServiceError::Validation(e)),
    }
}

/// Decides a breed creation before the insert.
pub fn plan_create_breed(p: &BreedPayload) -> (r: Result<(), ServiceError>)
    ensures
        r == lift(breed_payload_verdict(*p)),
{
    lift_verdict(validate_breed_payload(p))
}

pub open spec fn breed_update_plan(current: Option<Breed>, p: BreedPayload) -> Result<(), ServiceError> {
    match current {
        None => Err(ServiceError::NotFound),
        Some(_) => lift(breed_payload_verdict(p)),
    }
}

/// Decides a breed update given the breed found under its id: it must
/// exist, then the name must not be blank.
pub fn plan_update_breed(current: &Option<Breed>, p: &BreedPayload) -> (r: Result<(), ServiceError>)
    ensures
        r == breed_update_plan(*current, *p),
{
    match current {
        None => Err(ServiceError::NotFound),
        Some(_) => plan_create_breed(p),
    }
}

} // verus!

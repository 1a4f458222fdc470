use vstd::prelude::*;
use crate::error::ServiceError;
use crate::model::{Dog, DogPatchPayload, DogPayload};
use crate::rules::dog_payload_verdict;
use crate::service::{
    full_update_plan, listing, list_page, partial_update_plan, plan_create_dog, plan_full_update,
    plan_partial_update, plan_patch, require_found,
};
use crate::store::{dog_index, dog_rows_wf, find_dog, has_dog, DogTable};

verus! {

/// What getting the dog `id` returns.
pub open spec fn get_outcome(rows: Seq<Dog>, id: i32) -> Result<Dog, ServiceError> {
    match find_dog(rows, id) {
        Some(d) => Ok(d),
        None => Err(ServiceError::NotFound),
    }
}

/// What creating a dog from `p` returns, where `next_id` is the id the store
/// assigns next: a validation error, the new row, or a store failure once
/// the ids are used up.
pub open spec fn create_outcome(next_id: i32, p: DogPayload) -> Result<Dog, ServiceError> {
    match dog_payload_verdict(p) {
        Err(e) => Err(ServiceError::Validation(e)),
        Ok(()) => if next_id < i32::MAX {
            Ok(Dog::row(next_id, p))
        } else {
            Err(ServiceError::Store)
        },
    }
}

/// The rows after a creation with outcome `outcome`.
pub open spec fn rows_after_create(rows: Seq<Dog>, outcome: Result<Dog, ServiceError>) -> Seq<Dog> {
    match outcome {
        Ok(d) => rows.push(d),
        Err(_) => rows,
    }
}

/// What a full update of the dog `id` with `p` returns.
pub open spec fn full_update_outcome(rows: Seq<Dog>, id: i32, p: DogPayload) -> Result<Dog, ServiceError> {
    match full_update_plan(find_dog(rows, id), p) {
        Err(e) => Err(e),
        Ok(()) => Ok(Dog::row(id, p)),
    }
}

/// What a partial update of the dog `id` with `patch` returns.
pub open spec fn partial_update_outcome(rows: Seq<Dog>, id: i32, patch: DogPatchPayload) -> Result<
    Dog,
    ServiceError,
> {
    match partial_update_plan(find_dog(rows, id), patch) {
        Err(e) => Err(e),
        Ok(m) => Ok(Dog::row(id, m)),
    }
}

/// The rows after an update of the dog `id` with outcome `outcome`: the row
/// is replaced in place.
pub open spec fn rows_after_update(rows: Seq<Dog>, id: i32, outcome: Result<Dog, ServiceError>) -> Seq<
    Dog,
> {
    match outcome {
        Ok(d) => rows.update(dog_index(rows, id), d),
        Err(_) => rows,
    }
}

/// What deleting the dog `id` returns.
pub open spec fn delete_outcome(rows: Seq<Dog>, id: i32) -> Result<bool, ServiceError> {
    if has_dog(rows, id) {
        Ok(true)
    } else {
        Err(ServiceError::NotFound)
    }
}

/// The rows after deleting the dog `id`.
pub open spec fn rows_after_delete(rows: Seq<Dog>, id: i32) -> Seq<Dog> {
    if has_dog(rows, id) {
        rows.remove(dog_index(rows, id))
    } else {
        rows
    }
}

/// The dog service, over an in-memory table that stands for the store.
pub struct DogService {
    table: DogTable,
}

impl DogService {
    /// The stored dogs, in ascending order of id.
    pub closed spec fn rows(&self) -> Seq<Dog> {
        self.table.rows()
    }

    /// The id that the next created dog receives.
    pub closed spec fn next_id(&self) -> i32 {
        self.table.next_id()
    }

    pub open spec fn well_formed(&self) -> bool {
        dog_rows_wf(self.rows(), self.next_id())
    }

    /// A service over an empty table.
    pub fn new() -> (r: DogService)
        ensures
            r.well_formed(),
            r.rows() == Seq::<Dog>::empty(),
            r.next_id() == 1,
    {
        DogService { table: DogTable::new() }
    }

    /// The table the service works on.
    pub fn table(&self) -> (r: &DogTable)
        ensures
            r.well_formed() == self.well_formed(),
            r.rows() == self.rows(),
            r.next_id() == self.next_id(),
    {
        &self.table
    }

    /// One page of all dogs in ascending order of id: page 1 and 20 per page
    /// where not given; a page past the end is empty.
    pub fn list_dogs(&self, page: Option<u32>, limit: Option<u32>) -> (r: Result<Vec<Dog>, ServiceError>)
        ensures
            r is Ok <==> listing(self.rows(), page, limit) is Ok,
            r matches Ok(v) ==> listing(self.rows(), page, limit) == Ok::<Seq<Dog>, ServiceError>(v@),
            r matches Err(e) ==> listing(self.rows(), page, limit) == Err::<Seq<Dog>, ServiceError>(e),
    {
        let all = self.table.find_all();
        list_page(all, page, limit)
    }

    /// The dog with the id `id`, or `NotFound`.
    pub fn get_dog(&self, id: i32) -> (r: Result<Dog, ServiceError>)
        requires
            self.well_formed(),
        ensures
            r == get_outcome(self.rows(), id),
    {
        require_found(self.table.find_by_id(id))
    }

    /// Validates `payload` and stores it as a new dog.
    pub fn create_dog(&mut self, payload: DogPayload) -> (r: Result<Dog, ServiceError>)
        requires
            old(self).well_formed(),
        ensures
            final(self).well_formed(),
            r == create_outcome(old(self).next_id(), payload),
            final(self).rows() == rows_after_create(old(self).rows(), r),
    {
        match plan_create_dog(&payload) {
            Err(e) => Err(e),
            Ok(()) => match self.table.create(&payload) {
                Some(d) => Ok(d),
                None => Err(ServiceError::Store),
            },
        }
    }

    /// Replaces every field of the dog `id` after checking that it exists
    /// and that `payload` is valid.
    pub fn update_dog_full(&mut self, id: i32, payload: DogPayload) -> (r: Result<Dog, ServiceError>)
        requires
            old(self).well_formed(),
        ensures
            final(self).well_formed(),
            final(self).next_id() == old(self).next_id(),
            r == full_update_outcome(old(self).rows(), id, payload),
            final(self).rows() == rows_after_update(old(self).rows(), id, r),
    {
        let current = self.table.find_by_id(id);
        match plan_full_update(&current, &payload) {
            Err(e) => Err(e),
            Ok(()) => require_found(self.table.update(id, &payload)),
        }
    }

    /// Applies a partial update to the dog `id`: present fields override,
    /// a null breed clears it, absent fields keep their stored values.
    pub fn update_dog_partial(&mut self, id: i32, patch: DogPatchPayload) -> (r: Result<Dog, ServiceError>)
        requires
            old(self).well_formed(),
        ensures
            final(self).well_formed(),
            final(self).next_id() == old(self).next_id(),
            r == partial_update_outcome(old(self).rows(), id, patch),
            final(self).rows() == rows_after_update(old(self).rows(), id, r),
    {
        if let Err(e) = plan_patch(&patch) {
            return Err(e);
        }
        let current = self.table.find_by_id(id);
        match plan_partial_update(&current, &patch) {
            Err(e) => Err(e),
            Ok(values) => require_found(self.table.update(id, &values)),
        }
    }

    /// Deletes the dog `id` after checking that it exists; whether a row
    /// was removed.
    pub fn delete_dog(&mut self, id: i32) -> (r: Result<bool, ServiceError>)
        requires
            old(self).well_formed(),
        ensures
            final(self).well_formed(),
            final(self).next_id() == old(self).next_id(),
            r == delete_outcome(old(self).rows(), id),
            final(self).rows() == rows_after_delete(old(self).rows(), id),
    {
        match require_found(self.table.find_by_id(id)) {
            Err(e) => Err(e),
            Ok(_) => Ok(self.table.delete(id)),
        }
    }
}

} // verus!

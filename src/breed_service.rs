use vstd::prelude::*;
use crate::error::ServiceError;
use crate::model::{Breed, BreedPayload};
use crate::rules::breed_payload_verdict;
use crate::service::{breed_update_plan, plan_create_breed, plan_update_breed, require_found};
use crate::store::{breed_index, breed_rows_wf, find_breed, BreedTable};

verus! {

/// What creating a breed from `p` returns, where `next_id` is the id the
/// store assigns next.
pub open spec fn breed_create_outcome(next_id: i32, p: BreedPayload) -> Result<Breed, ServiceError> {
    match breed_payload_verdict(p) {
        Err(e) => Err(ServiceError::Validation(e)),
        Ok(()) => if next_id < i32::MAX {
            Ok(Breed { id: next_id, name: p.name })
        } else {
            Err(ServiceError::Store)
        },
    }
}

/// What updating the breed `id` with `p` returns.
pub open spec fn breed_update_outcome(rows: Seq<Breed>, id: i32, p: BreedPayload) -> Result<
    Breed,
    ServiceError,
> {
    match breed_update_plan(find_breed(rows, id), p) {
        Err(e) => Err(e),
        Ok(()) => Ok(Breed { id, name: p.name }),
    }
}

/// The breed service, over an in-memory table that stands for the store.
pub struct BreedService {
    table: BreedTable,
}

impl BreedService {
    /// The stored breeds, in ascending order of id.
    pub closed spec fn rows(&self) -> Seq<Breed> {
        self.table.rows()
    }

    /// The id that the next created breed receives.
    pub closed spec fn next_id(&self) -> i32 {
        self.table.next_id()
    }

    pub open spec fn well_formed(&self) -> bool {
        breed_rows_wf(self.rows(), self.next_id())
    }

    /// A service over an empty table.
    pub fn new() -> (r: BreedService)
        ensures
            r.well_formed(),
            r.rows() == Seq::<Breed>::empty(),
            r.next_id() == 1,
    {
        BreedService { table: BreedTable::new() }
    }

    /// The table the service works on.
    pub fn table(&self) -> (r: &BreedTable)
        ensures
            r.rows() == self.rows(),
            r.next_id() == self.next_id(),
            r.well_formed() == self.well_formed(),
    {
        &self.table
    }

    /// All breeds, in ascending order of id.
    pub fn list_breeds(&self) -> (r: Result<Vec<Breed>, ServiceError>)
        ensures
            r matches Ok(v) && v@ == self.rows(),
    {
        Ok(self.table.find_all())
    }

    /// The breed with the id `id`, or `NotFound`.
    pub fn get_breed(&self, id: i32) -> (r: Result<Breed, ServiceError>)
        requires
            self.well_formed(),
        ensures
            r == (match find_breed(self.rows(), id) {
                Some(b) => Ok(b),
                None => Err(ServiceError::NotFound),
            }),
    {
        require_found(self.table.find_by_id(id))
    }

    /// Validates `payload` and stores it as a new breed.
    pub fn create_breed(&mut self, payload: BreedPayload) -> (r: Result<Breed, ServiceError>)
        requires
            old(self).well_formed(),
        ensures
            final(self).well_formed(),
            r == breed_create_outcome(old(self).next_id(), payload),
            r matches Ok(b) ==> final(self).rows() == old(self).rows().push(b),
            r is Err ==> final(self).rows() == old(self).rows(),
    {
        match plan_create_breed(&payload) {
            Err(e) => Err(e),
            Ok(()) => match self.table.create(&payload) {
                Some(b) => Ok(b),
                None => Err(ServiceError::Store),
            },
        }
    }

    /// Renames the breed `id` after checking that it exists and that the
    /// name is not blank.
    pub fn update_breed(&mut self, id: i32, payload: BreedPayload) -> (r: Result<Breed, ServiceError>)
        requires
            old(self).well_formed(),
        ensures
            final(self).well_formed(),
            final(self).next_id() == old(self).next_id(),
            r == breed_update_outcome(old(self).rows(), id, payload),
            r matches Ok(b) ==> final(self).rows() == old(self).rows().update(
                breed_index(old(self).rows(), id),
                b,
            ),
            r is Err ==> final(self).rows() == old(self).rows(),
    {
        let current = self.table.find_by_id(id);
        match plan_update_breed(&current, &payload) {
            Err(e) => Err(e),
            Ok(()) => require_found(self.table.update(id, &payload)),
        }
    }
}

} // verus!

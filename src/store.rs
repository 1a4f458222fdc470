use vstd::prelude::*;
use crate::model::{Breed, BreedPayload, Dog, DogPayload, DogWithBreed};

verus! {

/// Rows kept in ascending order of id, each id below the next one to assign.
pub open spec fn dog_rows_wf(rows: Seq<Dog>, next_id: i32) -> bool {
    &&& forall|i: int, j: int| 0 <= i < j < rows.len() ==> rows[i].id < rows[j].id
    &&& forall|i: int| 0 <= i < rows.len() ==> #[trigger] rows[i].id < next_id
    &&& 1 <= next_id
}

/// Some row has the id `id`.
pub open spec fn has_dog(rows: Seq<Dog>, id: i32) -> bool {
    exists|i: int| 0 <= i < rows.len() && #[trigger] rows[i].id == id
}

/// The position of the row with the id `id`, where there is one.
pub open spec fn dog_index(rows: Seq<Dog>, id: i32) -> int {
    choose|i: int| 0 <= i < rows.len() && #[trigger] rows[i].id == id
}

/// The row with the id `id`, if any.
pub open spec fn find_dog(rows: Seq<Dog>, id: i32) -> Option<Dog> {
    if has_dog(rows, id) {
        Some(rows[dog_index(rows, id)])
    } else {
        None
    }
}

/// The rows whose breed is `breed_id`, in their order.
pub open spec fn dogs_of_breed(rows: Seq<Dog>, breed_id: i32) -> Seq<Dog> {
    rows.filter(|d: Dog| d.breed_id == Some(breed_id))
}

/// In well-formed rows an id names at most one row.
pub proof fn lemma_dog_index(rows: Seq<Dog>, next_id: i32, k: int)
    requires
        dog_rows_wf(rows, next_id),
        0 <= k < rows.len(),
    ensures
        has_dog(rows, rows[k].id),
        dog_index(rows, rows[k].id) == k,
        find_dog(rows, rows[k].id) == Some(rows[k]),
{
    let id = rows[k].id;
    assert(has_dog(rows, id));
    let c = dog_index(rows, id);
    if c < k {
        assert(rows[c].id < rows[k].id);
    } else if c > k {
        assert(rows[k].id < rows[c].id);
    }
}

/// Rows with ascending ids, each below `bound`, stay so with a row of id
/// `bound` added at the end.
pub proof fn lemma_dog_push(rows: Seq<Dog>, next_id: i32, d: Dog)
    requires
        dog_rows_wf(rows, next_id),
        d.id == next_id,
        next_id < i32::MAX,
    ensures
        dog_rows_wf(rows.push(d), (next_id + 1) as i32),
        !has_dog(rows, next_id),
        find_dog(rows.push(d), next_id) == Some(d),
{
    let r2 = rows.push(d);
    assert(r2[rows.len() as int] == d);
    lemma_dog_index(r2, (next_id + 1) as i32, rows.len() as int);
}

/// A dog joined with its breed's name: none where it has no breed or where
/// no breed has that id any more.
pub open spec fn joined(d: Dog, breeds: Seq<Breed>) -> DogWithBreed {
    DogWithBreed {
        id: d.id,
        name: d.name,
        age: d.age,
        breed_id: d.breed_id,
        breed_name: match d.breed_id {
            None => None,
            Some(b) => match find_breed(breeds, b) {
                Some(br) => Some(br.name),
                None => None,
            },
        },
    }
}

/// Breed rows kept in ascending order of id, each id below the next one.
pub open spec fn breed_rows_wf(rows: Seq<Breed>, next_id: i32) -> bool {
    &&& forall|i: int, j: int| 0 <= i < j < rows.len() ==> rows[i].id < rows[j].id
    &&& forall|i: int| 0 <= i < rows.len() ==> #[trigger] rows[i].id < next_id
    &&& 1 <= next_id
}

pub open spec fn has_breed(rows: Seq<Breed>, id: i32) -> bool {
    exists|i: int| 0 <= i < rows.len() && #[trigger] rows[i].id == id
}

pub open spec fn breed_index(rows: Seq<Breed>, id: i32) -> int {
    choose|i: int| 0 <= i < rows.len() && #[trigger] rows[i].id == id
}

/// The breed with the id `id`, if any.
pub open spec fn find_breed(rows: Seq<Breed>, id: i32) -> Option<Breed> {
    if has_breed(rows, id) {
        Some(rows[breed_index(rows, id)])
    } else {
        None
    }
}

pub proof fn lemma_breed_index(rows: Seq<Breed>, next_id: i32, k: int)
    requires
        breed_rows_wf(rows, next_id),
        0 <= k < rows.len(),
    ensures
        has_breed(rows, rows[k].id),
        breed_index(rows, rows[k].id) == k,
        find_breed(rows, rows[k].id) == Some(rows[k]),
{
    let id = rows[k].id;
    assert(has_breed(rows, id));
    let c = breed_index(rows, id);
    if c < k {
        assert(rows[c].id < rows[k].id);
    } else if c > k {
        assert(rows[k].id < rows[c].id);
    }
}

/// An in-memory dog table with the semantics of the persistence gateway:
/// ids are assigned in increasing order and never reused, and every listing
/// comes in ascending order of id.
pub struct DogTable {
    rows: Vec<Dog>,
    next_id: i32,
}

impl DogTable {
    /// The stored rows, in ascending order of id.
    pub closed spec fn rows(&self) -> Seq<Dog> {
        self.rows@
    }

    /// The id that the next insertion receives.
    pub closed spec fn next_id(&self) -> i32 {
        self.next_id
    }

    pub open spec fn well_formed(&self) -> bool {
        dog_rows_wf(self.rows(), self.next_id())
    }

    /// An empty table whose first id is 1.
    pub fn new() -> (r: DogTable)
        ensures
            r.well_formed(),
            r.rows() == Seq::<Dog>::empty(),
            r.next_id() == 1,
    {
        DogTable { rows: Vec::new(), next_id: 1 }
    }

    /// The position of the row with the id `id`.
    fn position(&self, id: i32) -> (r: Option<usize>)
        requires
            self.well_formed(),
        ensures
            r is None <==> !has_dog(self.rows(), id),
            r matches Some(k) ==> k < self.rows().len() && dog_index(self.rows(), id) == k,
    {
        let mut i: usize = 0;
        while i < self.rows.len()
            invariant
                self.well_formed(),
                i <= self.rows@.len(),
                forall|j: int| 0 <= j < i ==> #[trigger] self.rows@[j].id != id,
            decreases self.rows@.len() - i,
        {
            if self.rows[i].id == id {
                proof {
                    lemma_dog_index(self.rows@, self.next_id, i as int);
                }
                return Some(i);
            }
            i = i + 1;
        }
        None
    }

    /// All rows, in ascending order of id.
    pub fn find_all(&self) -> (r: Vec<Dog>)
        ensures
            r@ == self.rows(),
    {
        let mut out: Vec<Dog> = Vec::new();
        for i in 0..self.rows.len()
            invariant
                out@ == self.rows@.subrange(0, i as int),
        {
            out.push(self.rows[i].duplicate());
            assert(out@ =~= self.rows@.subrange(0, i + 1));
        }
        assert(out@ =~= self.rows@);
        out
    }

    /// The row with the id `id`; its absence is no error.
    pub fn find_by_id(&self, id: i32) -> (r: Option<Dog>)
        requires
            self.well_formed(),
        ensures
            r == find_dog(self.rows(), id),
    {
        match self.position(id) {
            Some(k) => Some(self.rows[k].duplicate()),
            None => None,
        }
    }

    /// Inserts a row for `p` under the next id and returns it. Fails, and
    /// leaves the table as it is, once the ids are used up.
    pub fn create(&mut self, p: &DogPayload) -> (r: Option<Dog>)
        requires
            old(self).well_formed(),
        ensures
            final(self).well_formed(),
            old(self).next_id() < i32::MAX ==> r == Some(Dog::row(old(self).next_id(), *p))
                && final(self).rows() == old(self).rows().push(Dog::row(old(self).next_id(), *p))
                && final(self).next_id() == old(self).next_id() + 1,
            old(self).next_id() == i32::MAX ==> r is None && *final(self) == *old(self),
    {
        if self.next_id == i32::MAX {
            return None;
        }
        let d = Dog { id: self.next_id, name: p.name.clone(), age: p.age, breed_id: p.breed_id };
        proof {
            lemma_dog_push(self.rows@, self.next_id, d);
        }
        self.rows.push(d.duplicate());
        self.next_id = self.next_id + 1;
        Some(d)
    }

    /// Overwrites every column of the row with the id `id` and returns the
    /// new row; `None` where no row has that id.
    pub fn update(&mut self, id: i32, p: &DogPayload) -> (r: Option<Dog>)
        requires
            old(self).well_formed(),
        ensures
            final(self).well_formed(),
            final(self).next_id() == old(self).next_id(),
            has_dog(old(self).rows(), id) ==> r == Some(Dog::row(id, *p)) && final(self).rows()
                == old(self).rows().update(dog_index(old(self).rows(), id), Dog::row(id, *p)),
            !has_dog(old(self).rows(), id) ==> r is None && final(self).rows() == old(self).rows(),
    {
        match self.position(id) {
            None => None,
            Some(k) => {
                let d = Dog { id, name: p.name.clone(), age: p.age, breed_id: p.breed_id };
                self.rows.set(k, d.duplicate());
                Some(d)
            },
        }
    }

    /// Removes the row with the id `id`; true iff a row was removed.
    pub fn delete(&mut self, id: i32) -> (r: bool)
        requires
            old(self).well_formed(),
        ensures
            final(self).well_formed(),
            final(self).next_id() == old(self).next_id(),
            r == has_dog(old(self).rows(), id),
            r ==> final(self).rows() == old(self).rows().remove(dog_index(old(self).rows(), id)),
            !r ==> final(self).rows() == old(self).rows(),
    {
        match self.position(id) {
            None => false,
            Some(k) => {
                let ghost before = self.rows@;
                self.rows.remove(k);
                assert forall|i: int, j: int| 0 <= i < j < self.rows@.len() implies
                    self.rows@[i].id < self.rows@[j].id by {
                    let a = if i < k { i } else { i + 1 };
                    let b = if j < k { j } else { j + 1 };
                    assert(self.rows@[i] == before[a]);
                    assert(self.rows@[j] == before[b]);
                }
                assert forall|i: int| 0 <= i < self.rows@.len() implies
                    #[trigger] self.rows@[i].id < self.next_id by {
                    let a = if i < k { i } else { i + 1 };
                    assert(self.rows@[i] == before[a]);
                }
                true
            },
        }
    }

    /// The rows whose breed is `breed_id`, in ascending order of id.
    pub fn find_by_breed_id(&self, breed_id: i32) -> (r: Vec<Dog>)
        ensures
            r@ == dogs_of_breed(self.rows(), breed_id),
    {
        let ghost pred = |d: Dog| d.breed_id == Some(breed_id);
        let mut out: Vec<Dog> = Vec::new();
        for i in 0..self.rows.len()
            invariant
                pred == (|d: Dog| d.breed_id == Some(breed_id)),
                out@ == self.rows@.subrange(0, i as int).filter(pred),
        {
            proof {
                let next = self.rows@.subrange(0, i + 1);
                assert(next.drop_last() =~= self.rows@.subrange(0, i as int));
                reveal(Seq::filter);
            }
            if self.rows[i].breed_id == Some(breed_id) {
                out.push(self.rows[i].duplicate());
            }
        }
        assert(self.rows@.subrange(0, self.rows@.len() as int) =~= self.rows@);
        out
    }

    /// Every row joined with its breed's name, in ascending order of id.
    pub fn find_all_with_breed(&self, breeds: &BreedTable) -> (r: Vec<DogWithBreed>)
        requires
            breeds.well_formed(),
        ensures
            r@.len() == self.rows().len(),
            forall|i: int| 0 <= i < r@.len() ==> #[trigger] r@[i] == joined(self.rows()[i], breeds.rows()),
    {
        let mut out: Vec<DogWithBreed> = Vec::new();
        for i in 0..self.rows.len()
            invariant
                breeds.well_formed(),
                out@.len() == i,
                forall|j: int| 0 <= j < i ==> #[trigger] out@[j] == joined(self.rows@[j], breeds.rows()),
        {
            out.push(join_breed(&self.rows[i], breeds));
        }
        out
    }

    /// The row with the id `id` joined with its breed's name, if any.
    pub fn find_by_id_with_breed(&self, id: i32, breeds: &BreedTable) -> (r: Option<DogWithBreed>)
        requires
            self.well_formed(),
            breeds.well_formed(),
        ensures
            r == (match find_dog(self.rows(), id) {
                Some(d) => Some(joined(d, breeds.rows())),
                None => None,
            }),
    {
        match self.position(id) {
            Some(k) => Some(join_breed(&self.rows[k], breeds)),
            None => None,
        }
    }
}

/// The dog `d` with the name of its breed looked up in `breeds`.
fn join_breed(d: &Dog, breeds: &BreedTable) -> (r: DogWithBreed)
    requires
        breeds.well_formed(),
    ensures
        r == joined(*d, breeds.rows()),
{
    let breed_name = match d.breed_id {
        None => None,
        Some(b) => match breeds.find_by_id(b) {
            Some(br) => Some(br.name),
            None => None,
        },
    };
    DogWithBreed { id: d.id, name: d.name.clone(), age: d.age, breed_id: d.breed_id, breed_name }
}

/// An in-memory breed table with the semantics of the persistence gateway.
pub struct BreedTable {
    rows: Vec<Breed>,
    next_id: i32,
}

impl BreedTable {
    /// The stored breeds, in ascending order of id.
    pub closed spec fn rows(&self) -> Seq<Breed> {
        self.rows@
    }

    /// The id that the next insertion receives.
    pub closed spec fn next_id(&self) -> i32 {
        self.next_id
    }

    pub open spec fn well_formed(&self) -> bool {
        breed_rows_wf(self.rows(), self.next_id())
    }

    /// An empty table whose first id is 1.
    pub fn new() -> (r: BreedTable)
        ensures
            r.well_formed(),
            r.rows() == Seq::<Breed>::empty(),
            r.next_id() == 1,
    {
        BreedTable { rows: Vec::new(), next_id: 1 }
    }

    fn position(&self, id: i32) -> (r: Option<usize>)
        requires
            self.well_formed(),
        ensures
            r is None <==> !has_breed(self.rows(), id),
            r matches Some(k) ==> k < self.rows().len() && breed_index(self.rows(), id) == k,
    {
        let mut i: usize = 0;
        while i < self.rows.len()
            invariant
                self.well_formed(),
                i <= self.rows@.len(),
                forall|j: int| 0 <= j < i ==> #[trigger] self.rows@[j].id != id,
            decreases self.rows@.len() - i,
        {
            if self.rows[i].id == id {
                proof {
                    lemma_breed_index(self.rows@, self.next_id, i as int);
                }
                return Some(i);
            }
            i = i + 1;
        }
        None
    }

    /// All breeds, in ascending order of id.
    pub fn find_all(&self) -> (r: Vec<Breed>)
        ensures
            r@ == self.rows(),
    {
        let mut out: Vec<Breed> = Vec::new();
        for i in 0..self.rows.len()
            invariant
                out@ == self.rows@.subrange(0, i as int),
        {
            out.push(self.rows[i].duplicate());
            assert(out@ =~= self.rows@.subrange(0, i + 1));
        }
        assert(out@ =~= self.rows@);
        out
    }

    /// The breed with the id `id`; its absence is no error.
    pub fn find_by_id(&self, id: i32) -> (r: Option<Breed>)
        requires
            self.well_formed(),
        ensures
            r == find_breed(self.rows(), id),
    {
        match self.position(id) {
            Some(k) => Some(self.rows[k].duplicate()),
            None => None,
        }
    }

    /// Inserts a breed under the next id and returns it; `None`, with the
    /// table left as it is, once the ids are used up.
    pub fn create(&mut self, p: &BreedPayload) -> (r: Option<Breed>)
        requires
            old(self).well_formed(),
        ensures
            final(self).well_formed(),
            old(self).next_id() < i32::MAX ==> r == Some(Breed { id: old(self).next_id(), name: p.name })
                && final(self).rows() == old(self).rows().push(Breed { id: old(self).next_id(), name: p.name })
                && final(self).next_id() == old(self).next_id() + 1,
            old(self).next_id() == i32::MAX ==> r is None && *final(self) == *old(self),
    {
        if self.next_id == i32::MAX {
            return None;
        }
        let b = Breed { id: self.next_id, name: p.name.clone() };
        self.rows.push(b.duplicate());
        self.next_id = self.next_id + 1;
        Some(b)
    }

    /// Overwrites the breed with the id `id`; `None` where there is none.
    pub fn update(&mut self, id: i32, p: &BreedPayload) -> (r: Option<Breed>)
        requires
            old(self).well_formed(),
        ensures
            final(self).well_formed(),
            final(self).next_id() == old(self).next_id(),
            has_breed(old(self).rows(), id) ==> r == Some(Breed { id, name: p.name }) && final(self).rows()
                == old(self).rows().update(breed_index(old(self).rows(), id), Breed { id, name: p.name }),
            !has_breed(old(self).rows(), id) ==> r is None && final(self).rows() == old(self).rows(),
    {
        match self.position(id) {
            None => None,
            Some(k) => {
                let b = Breed { id, name: p.name.clone() };
                self.rows.set(k, b.duplicate());
                Some(b)
            },
        }
    }

    /// Removes the breed with the id `id`; true iff one was removed. Dogs
    /// that named it keep their breed id.
    pub fn delete(&mut self, id: i32) -> (r: bool)
        requires
            old(self).well_formed(),
        ensures
            final(self).well_formed(),
            final(self).next_id() == old(self).next_id(),
            r == has_breed(old(self).rows(), id),
            r ==> final(self).rows() == old(self).rows().remove(breed_index(old(self).rows(), id)),
            !r ==> final(self).rows() == old(self).rows(),
    {
        match self.position(id) {
            None => false,
            Some(k) => {
                let ghost before = self.rows@;
                self.rows.remove(k);
                assert forall|i: int, j: int| 0 <= i < j < self.rows@.len() implies
                    self.rows@[i].id < self.rows@[j].id by {
                    let a = if i < k { i } else { i + 1 };
                    let b = if j < k { j } else { j + 1 };
                    assert(self.rows@[i] == before[a]);
                    assert(self.rows@[j] == before[b]);
                }
                assert forall|i: int| 0 <= i < self.rows@.len() implies
                    #[trigger] self.rows@[i].id < self.next_id by {
                    let a = if i < k { i } else { i + 1 };
                    assert(self.rows@[i] == before[a]);
                }
                true
            },
        }
    }
}

} // verus!

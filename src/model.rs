use vstd::prelude::*;

verus! {

/// Input of breed creation and full update.
#[derive(Clone, Debug, PartialEq, Eq)]
pub struct BreedPayload {
    pub name: String,
}

/// A stored breed.
#[derive(Clone, Debug, PartialEq, Eq)]
pub struct Breed {
    pub id: i32,
    pub name: String,
}

/// Input of dog creation and full update.
#[derive(Clone, Debug, PartialEq, Eq)]
pub struct DogPayload {
    pub name: String,
    pub age: i32,
    pub breed_id: Option<i32>,
}

/// One field of a partial update that may also be cleared: left as it is,
/// set to null, or set to a value.
#[derive(Clone, Copy, Debug, PartialEq, Eq)]
pub enum FieldPatch<T> {
    Unset,
    Null,
    Value(T),
}

/// Input of a partial dog update: an absent field keeps its stored value.
#[derive(Clone, Debug, PartialEq, Eq)]
pub struct DogPatchPayload {
    pub name: Option<String>,
    pub age: Option<i32>,
    pub breed_id: FieldPatch<i32>,
}

/// A stored dog.
#[derive(Clone, Debug, PartialEq, Eq)]
pub struct Dog {
    pub id: i32,
    pub name: String,
    pub age: i32,
    pub breed_id: Option<i32>,
}

/// A dog together with the name of its breed, as a left outer join gives it.
#[derive(Clone, Debug, PartialEq, Eq)]
pub struct DogWithBreed {
    pub id: i32,
    pub name: String,
    pub age: i32,
    pub breed_id: Option<i32>,
    pub breed_name: Option<String>,
}

impl DogPayload {
    /// The payload whose fields are those of a stored dog.
    pub open spec fn of_dog(d: Dog) -> DogPayload {
        DogPayload { name: d.name, age: d.age, breed_id: d.breed_id }
    }
}

impl Dog {
    /// The row that a store holds for `p` under the id `id`.
    pub open spec fn row(id: i32, p: DogPayload) -> Dog {
        Dog { id, name: p.name, age: p.age, breed_id: p.breed_id }
    }

    /// A copy of the dog, field by field.
    pub fn duplicate(&self) -> (r: Dog)
        ensures
            r == *self,
    {
        Dog { id: self.id, name: self.name.clone(), age: self.age, breed_id: self.breed_id }
    }
}

impl Breed {
    /// A copy of the breed, field by field.
    pub fn duplicate(&self) -> (r: Breed)
        ensures
            r == *self,
    {
        Breed { id: self.id, name: self.name.clone() }
    }
}

} // verus!

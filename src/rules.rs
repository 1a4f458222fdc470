use vstd::prelude::*;
use crate::error::ValidationError;
use crate::model::{BreedPayload, DogPatchPayload, DogPayload};

verus! {

/// Whether `c` has the Unicode White_Space property, as `char::is_whitespace`
/// decides it.
pub uninterp spec fn white_space(c: char) -> bool;

/// Relies on `char::is_whitespace`: it reports the White_Space property of
/// the character, a function of the character alone, and a space has it.
#[verifier::external_body]
fn char_is_whitespace(c: char) -> (r: bool)
    ensures
        r == white_space(c),
        c == ' ' ==> r,
{
    c.is_whitespace()
}

/// A text is blank when nothing is left of it once surrounding white space
/// is trimmed, that is when each of its characters is white space.
pub open spec fn blank(s: Seq<char>) -> bool {
    forall|i: int| 0 <= i < s.len() ==> white_space(#[trigger] s[i])
}

/// Whether `s` is empty after trimming.
pub fn is_blank(s: &str) -> (r: bool)
    ensures
        r == blank(s@),
{
    let mut all: bool = true;
    for c in it: s.chars()
        invariant
            it.seq() == s@,
            all == (forall|i: int| 0 <= i < it.index() ==> white_space(#[trigger] s@[i])),
    {
        let w = char_is_whitespace(c);
        all = all && w;
    }
    all
}

pub const MIN_AGE: i32 = 0;
pub const MAX_AGE: i32 = 30;

/// A name is accepted when it is not blank.
pub open spec fn valid_name(s: Seq<char>) -> bool {
    !blank(s)
}

/// An age is accepted when it lies in the inclusive range [0, 30].
pub open spec fn valid_age(age: i32) -> bool {
    MIN_AGE <= age <= MAX_AGE
}

/// The verdict on a dog payload: the name is checked first, then the age.
pub open spec fn dog_payload_verdict(p: DogPayload) -> Result<(), ValidationError> {
    if !valid_name(p.name@) {
        Err(ValidationError::EmptyName)
    } else if !valid_age(p.age) {
        Err(ValidationError::AgeOutOfRange)
    } else {
        Ok(())
    }
}

/// The verdict on a partial update: only the fields it holds are checked.
pub open spec fn dog_patch_verdict(p: DogPatchPayload) -> Result<(), ValidationError> {
    if p.name is Some && !valid_name(p.name->Some_0@) {
        Err(ValidationError::EmptyName)
    } else if p.age is Some && !valid_age(p.age->Some_0) {
        Err(ValidationError::AgeOutOfRange)
    } else {
        Ok(())
    }
}

/// The verdict on a breed payload.
pub open spec fn breed_payload_verdict(p: BreedPayload) -> Result<(), ValidationError> {
    if !valid_name(p.name@) {
        Err(ValidationError::EmptyName)
    } else {
        Ok(())
    }
}

/// Rejects a name that is empty after trimming.
pub fn check_name(name: &str) -> (r: Result<(), ValidationError>)
    ensures
        r == (if valid_name(name@) {
            Ok(())
        } else {
            Err(ValidationError::EmptyName)
        }),
{
    if is_blank(name) {
        Err(ValidationError::EmptyName)
    } else {
        Ok(())
    }
}

/// Rejects an age outside [0, 30].
pub fn check_age(age: i32) -> (r: Result<(), ValidationError>)
    ensures
        r == (if valid_age(age) {
            Ok(())
        } else {
            Err(ValidationError::AgeOutOfRange)
        }),
{
    if age < MIN_AGE || age > MAX_AGE {
        Err(ValidationError::AgeOutOfRange)
    } else {
        Ok(())
    }
}

/// Validates the payload of a dog creation or full update.
pub fn validate_dog_payload(p: &DogPayload) -> (r: Result<(), ValidationError>)
    ensures
        r == dog_payload_verdict(*p),
{
    match check_name(p.name.as_str()) {
        Err(e) => Err(e),
        Ok(()) => check_age(p.age),
    }
}

/// Validates the fields present in a partial dog update.
pub fn validate_dog_patch(p: &DogPatchPayload) -> (r: Result<(), ValidationError>)
    ensures
        r == dog_patch_verdict(*p),
{
    if let Some(name) = &p.name {
        if let Err(e) = check_name(name.as_str()) {
            return Err(e);
        }
    }
    match p.age {
        Some(age) => check_age(age),
        None => Ok(()),
    }
}

/// Validates the payload of a breed creation or full update.
pub fn validate_breed_payload(p: &BreedPayload) -> (r: Result<(), ValidationError>)
    ensures
        r == breed_payload_verdict(*p),
{
    check_name(p.name.as_str())
}

} // verus!

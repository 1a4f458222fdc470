use vstd::prelude::*;

verus! {

/// Input that breaks a rule of the service.
#[derive(Clone, Copy, Debug, PartialEq, Eq, Structural)]
pub enum ValidationError {
    /// A name that is empty after trimming.
    EmptyName,
    /// An age outside the accepted range.
    AgeOutOfRange,
    /// A page or a page size of zero.
    InvalidPagination,
}

/// The kinds of failure that a service operation reports.
#[derive(Clone, Copy, Debug, PartialEq, Eq, Structural)]
pub enum ServiceError {
    Validation(ValidationError),
    /// The id names no stored row.
    NotFound,
    /// The store failed; what it said is not passed on.
    Store,
}

pub const STATUS_OK: u16 = 200;
pub const STATUS_CREATED: u16 = 201;
pub const STATUS_NO_CONTENT: u16 = 204;
pub const STATUS_BAD_REQUEST: u16 = 400;
pub const STATUS_NOT_FOUND: u16 = 404;
pub const STATUS_INTERNAL_ERROR: u16 = 500;

/// The operations that the HTTP surface exposes for each entity.
#[derive(Clone, Copy, Debug, PartialEq, Eq, Structural)]
pub enum Operation {
    List,
    Get,
    Create,
    UpdateFull,
    UpdatePartial,
    Delete,
}

impl ServiceError {
    pub open spec fn spec_status(self) -> u16 {
        match self {
            ServiceError::Validation(_) => STATUS_BAD_REQUEST,
            ServiceError::NotFound => STATUS_NOT_FOUND,
            ServiceError::Store => STATUS_INTERNAL_ERROR,
        }
    }

    /// The status code of the error kind: 400, 404 or 500.
    pub fn status(&self) -> (r: u16)
        ensures
            r == self.spec_status(),
    {
        match self {
            ServiceError::Validation(_) => STATUS_BAD_REQUEST,
            ServiceError::NotFound => STATUS_NOT_FOUND,
            ServiceError::Store => STATUS_INTERNAL_ERROR,
        }
    }

    pub open spec fn spec_message(self) -> Seq<char> {
        match self {
            ServiceError::Validation(ValidationError::EmptyName) => "name cannot be empty"@,
            ServiceError::Validation(ValidationError::AgeOutOfRange) => "age out of range"@,
            ServiceError::Validation(ValidationError::InvalidPagination) => "page and limit must be positive"@,
            ServiceError::NotFound => "not found"@,
            ServiceError::Store => "internal server error"@,
        }
    }

    /// The message shown to a client; it never holds what the store said.
    pub fn message(&self) -> (r: String)
        ensures
            r@ == self.spec_message(),
    {
        match self {
            ServiceError::Validation(ValidationError::EmptyName) => "name cannot be empty".to_string(),
            ServiceError::Validation(ValidationError::AgeOutOfRange) => "age out of range".to_string(),
            ServiceError::Validation(ValidationError::InvalidPagination) => "page and limit must be positive".to_string(),
            ServiceError::NotFound => "not found".to_string(),
            ServiceError::Store => "internal server error".to_string(),
        }
    }
}

impl Operation {
    pub open spec fn spec_success_status(self) -> u16 {
        match self {
            Operation::Create => STATUS_CREATED,
            Operation::Delete => STATUS_NO_CONTENT,
            _ => STATUS_OK,
        }
    }

    pub open spec fn spec_status_of(self, outcome: Option<ServiceError>) -> u16 {
        match outcome {
            None => self.spec_success_status(),
            Some(e) => match (self, e) {
                (Operation::List, ServiceError::Validation(_)) => STATUS_BAD_REQUEST,
                (Operation::List, _) => STATUS_INTERNAL_ERROR,
                _ => e.spec_status(),
            },
        }
    }

    /// The status code of a response to this operation, where `outcome` is
    /// the error it failed with, if any. A list never answers 404: apart from
    /// refused pagination parameters (400), its failures are 500.
    pub fn status_of(&self, outcome: Option<ServiceError>) -> (r: u16)
        ensures
            r == self.spec_status_of(outcome),
    {
        match outcome {
            None => match self {
                Operation::Create => STATUS_CREATED,
                Operation::Delete => STATUS_NO_CONTENT,
                _ => STATUS_OK,
            },
            Some(e) => match (self, e) {
                (Operation::List, ServiceError::Validation(_)) => STATUS_BAD_REQUEST,
                (Operation::List, _) => STATUS_INTERNAL_ERROR,
                _ => e.status(),
            },
        }
    }
}

} // verus!

//! The domain failure taxonomy and the error mapper: one fixed table from
//! failure kind to transport outcome, reused by every transport adapter.

use vstd::prelude::*;

verus! {

/// Every failure a core operation can surface. `Unauthorized` covers bad or
/// missing credentials and tokens; `Forbidden` an authenticated caller that
/// does not own the resource; `InvalidRequest` input validation; `Internal`
/// unclassified storage or crypto failures, whose details are never exposed
/// to a caller.
#[derive(Debug, Clone, Copy, PartialEq, Eq, Structural)]
pub enum DomainError {
    UserNotFound(u64),
    UserAlreadyExists,
    PostNotFound(u64),
    Forbidden,
    Unauthorized,
    InvalidRequest,
    Internal,
}

/// The transport-neutral outcome class a domain failure maps to.
#[derive(Debug, Clone, Copy, PartialEq, Eq, Structural)]
pub enum OutcomeClass {
    NotFound,
    Conflict,
    AuthenticationFailure,
    AuthorizationFailure,
    ClientInputError,
    ServerError,
}

impl DomainError {
    /// The fixed mapping table from failure kind to outcome class.
    pub open spec fn spec_outcome_class(self) -> OutcomeClass {
        match self {
            DomainError::UserNotFound(_) => OutcomeClass::NotFound,
            DomainError::PostNotFound(_) => OutcomeClass::NotFound,
            DomainError::UserAlreadyExists => OutcomeClass::Conflict,
            DomainError::Unauthorized => OutcomeClass::AuthenticationFailure,
            DomainError::Forbidden => OutcomeClass::AuthorizationFailure,
            DomainError::InvalidRequest => OutcomeClass::ClientInputError,
            DomainError::Internal => OutcomeClass::ServerError,
        }
    }

    pub fn outcome_class(&self) -> (r: OutcomeClass)
        ensures
            r == self.spec_outcome_class(),
    {
        match self {
            DomainError::UserNotFound(_) => OutcomeClass::NotFound,
            DomainError::PostNotFound(_) => OutcomeClass::NotFound,
            DomainError::UserAlreadyExists => OutcomeClass::Conflict,
            DomainError::Unauthorized => OutcomeClass::AuthenticationFailure,
            DomainError::Forbidden => OutcomeClass::AuthorizationFailure,
            DomainError::InvalidRequest => OutcomeClass::ClientInputError,
            DomainError::Internal => OutcomeClass::ServerError,
        }
    }

    /// The fixed, non-leaking message a failure is reported to a caller
    /// with: resource identifiers and internal details are never part of it.
    pub fn client_message(&self) -> (r: String)
        ensures
            self is UserNotFound ==> r@ == "user not found"@,
            self is PostNotFound ==> r@ == "post not found"@,
            self is UserAlreadyExists ==> r@ == "user already exists"@,
            self is Unauthorized ==> r@ == "unauthorized"@,
            self is Forbidden ==> r@ == "forbidden"@,
            self is InvalidRequest ==> r@ == "invalid request"@,
            self is Internal ==> r@ == "internal error"@,
    {
        match self {
            DomainError::UserNotFound(_) => "user not found".to_owned(),
            DomainError::PostNotFound(_) => "post not found".to_owned(),
            DomainError::UserAlreadyExists => "user already exists".to_owned(),
            DomainError::Unauthorized => "unauthorized".to_owned(),
            DomainError::Forbidden => "forbidden".to_owned(),
            DomainError::InvalidRequest => "invalid request".to_owned(),
            DomainError::Internal => "internal error".to_owned(),
        }
    }

    /// The HTTP status a failure is reported with.
    pub fn status_code(&self) -> (r: u16)
        ensures
            r == 404 <==> (self is UserNotFound || self is PostNotFound),
            r == 409 <==> self is UserAlreadyExists,
            r == 401 <==> self is Unauthorized,
            r == 403 <==> self is Forbidden,
            r == 400 <==> self is InvalidRequest,
            r == 500 <==> self is Internal,
    {
        match self {
            DomainError::UserNotFound(_) => 404,
            DomainError::PostNotFound(_) => 404,
            DomainError::UserAlreadyExists => 409,
            DomainError::Unauthorized => 401,
            DomainError::Forbidden => 403,
            DomainError::InvalidRequest => 400,
            DomainError::Internal => 500,
        }
    }

    /// The RPC status code a failure is reported with, by the conventional
    /// numbering (3 invalid argument, 5 not found, 6 already exists,
    /// 7 permission denied, 13 internal, 16 unauthenticated).
    pub fn grpc_code(&self) -> (r: u32)
        ensures
            r == 5 <==> (self is UserNotFound || self is PostNotFound),
            r == 6 <==> self is UserAlreadyExists,
            r == 16 <==> self is Unauthorized,
            r == 7 <==> self is Forbidden,
            r == 3 <==> self is InvalidRequest,
            r == 13 <==> self is Internal,
    {
        match self {
            DomainError::UserNotFound(_) => 5,
            DomainError::PostNotFound(_) => 5,
            DomainError::UserAlreadyExists => 6,
            DomainError::Unauthorized => 16,
            DomainError::Forbidden => 7,
            DomainError::InvalidRequest => 3,
            DomainError::Internal => 13,
        }
    }
}

} // verus!

use blog_core::error::{DomainError, OutcomeClass};

#[test]
fn http_status_follows_the_mapping_table() {
    assert_eq!(DomainError::UserNotFound(1).status_code(), 404);
    assert_eq!(DomainError::PostNotFound(2).status_code(), 404);
    assert_eq!(DomainError::UserAlreadyExists.status_code(), 409);
    assert_eq!(DomainError::Unauthorized.status_code(), 401);
    assert_eq!(DomainError::Forbidden.status_code(), 403);
    assert_eq!(DomainError::InvalidRequest.status_code(), 400);
    assert_eq!(DomainError::Internal.status_code(), 500);
}

#[test]
fn grpc_code_follows_the_mapping_table() {
    assert_eq!(DomainError::UserNotFound(1).grpc_code(), 5);
    assert_eq!(DomainError::PostNotFound(2).grpc_code(), 5);
    assert_eq!(DomainError::UserAlreadyExists.grpc_code(), 6);
    assert_eq!(DomainError::Unauthorized.grpc_code(), 16);
    assert_eq!(DomainError::Forbidden.grpc_code(), 7);
    assert_eq!(DomainError::InvalidRequest.grpc_code(), 3);
    assert_eq!(DomainError::Internal.grpc_code(), 13);
}

#[test]
fn outcome_class_is_the_same_for_both_transports() {
    assert_eq!(DomainError::UserNotFound(1).outcome_class(), OutcomeClass::NotFound);
    assert_eq!(DomainError::PostNotFound(2).outcome_class(), OutcomeClass::NotFound);
    assert_eq!(DomainError::UserAlreadyExists.outcome_class(), OutcomeClass::Conflict);
    assert_eq!(DomainError::Unauthorized.outcome_class(), OutcomeClass::AuthenticationFailure);
    assert_eq!(DomainError::Forbidden.outcome_class(), OutcomeClass::AuthorizationFailure);
    assert_eq!(DomainError::InvalidRequest.outcome_class(), OutcomeClass::ClientInputError);
    assert_eq!(DomainError::Internal.outcome_class(), OutcomeClass::ServerError);
}

#[test]
fn client_message_is_fixed_and_non_leaking() {
    assert_eq!(DomainError::UserNotFound(7).client_message(), "user not found");
    assert_eq!(DomainError::PostNotFound(9).client_message(), "post not found");
    assert_eq!(DomainError::UserAlreadyExists.client_message(), "user already exists");
    assert_eq!(DomainError::Unauthorized.client_message(), "unauthorized");
    assert_eq!(DomainError::Forbidden.client_message(), "forbidden");
    assert_eq!(DomainError::InvalidRequest.client_message(), "invalid request");
    assert_eq!(DomainError::Internal.client_message(), "internal error");
}

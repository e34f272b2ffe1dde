//! The two-kind error taxonomy shared by every use case, and the
//! error type of the register-user-name use case.

use vstd::prelude::*;

verus! {

/// The caller-supplied input was unacceptable; the reason is safe to expose.
#[derive(Debug, Clone)]
pub struct ValidationError(pub String);

/// A storage collaborator failed; the reason is internal and must not be
/// echoed to the caller.
#[derive(Debug, Clone)]
pub struct ServiceError(pub String);

impl PartialEq for ValidationError {
    fn eq(&self, other: &Self) -> (r: bool) {
        self.0 == other.0
    }
}

impl vstd::std_specs::cmp::PartialEqSpecImpl for ValidationError {
    open spec fn obeys_eq_spec() -> bool {
        true
    }

    open spec fn eq_spec(&self, other: &Self) -> bool {
        self.0@ == other.0@
    }
}

impl PartialEq for ServiceError {
    fn eq(&self, other: &Self) -> (r: bool) {
        self.0 == other.0
    }
}

impl vstd::std_specs::cmp::PartialEqSpecImpl for ServiceError {
    open spec fn obeys_eq_spec() -> bool {
        true
    }

    open spec fn eq_spec(&self, other: &Self) -> bool {
        self.0@ == other.0@
    }
}

/// Outcome classifier of the register-user-name use case: exactly one of the
/// two error kinds may leave the domain service.
#[derive(Debug, Clone)]
pub enum RegisterUserNameError {
    ValidationError(ValidationError),
    ServiceError(ServiceError),
}

impl PartialEq for RegisterUserNameError {
    fn eq(&self, other: &Self) -> (r: bool) {
        match (self, other) {
            (
                RegisterUserNameError::ValidationError(a),
                RegisterUserNameError::ValidationError(b),
            ) => a == b,
            (RegisterUserNameError::ServiceError(a), RegisterUserNameError::ServiceError(b)) => a
                == b,
            _ => false,
        }
    }
}

impl vstd::std_specs::cmp::PartialEqSpecImpl for RegisterUserNameError {
    open spec fn obeys_eq_spec() -> bool {
        true
    }

    open spec fn eq_spec(&self, other: &Self) -> bool {
        match (self, other) {
            (
                RegisterUserNameError::ValidationError(a),
                RegisterUserNameError::ValidationError(b),
            ) => a.0@ == b.0@,
            (RegisterUserNameError::ServiceError(a), RegisterUserNameError::ServiceError(b)) => a.0@
                == b.0@,
            _ => false,
        }
    }
}

impl From<ValidationError> for RegisterUserNameError {
    fn from(e: ValidationError) -> (r: Self) {
        RegisterUserNameError::ValidationError(e)
    }
}

impl vstd::std_specs::convert::FromSpecImpl<ValidationError> for RegisterUserNameError {
    open spec fn obeys_from_spec() -> bool {
        true
    }

    open spec fn from_spec(e: ValidationError) -> Self {
        RegisterUserNameError::ValidationError(e)
    }
}

impl From<ServiceError> for RegisterUserNameError {
    fn from(e: ServiceError) -> (r: Self) {
        RegisterUserNameError::ServiceError(e)
    }
}

impl vstd::std_specs::convert::FromSpecImpl<ServiceError> for RegisterUserNameError {
    open spec fn obeys_from_spec() -> bool {
        true
    }

    open spec fn from_spec(e: ServiceError) -> Self {
        RegisterUserNameError::ServiceError(e)
    }
}

} // verus!

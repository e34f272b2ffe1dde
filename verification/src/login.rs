//! The login use case: a name lookup over the user store.
//!
//! Login deliberately skips length validation, so even names shorter than
//! the registration minimum can be looked up. The lookup is an equality
//! match on the stored name.

use crate::err::{ServiceError, ValidationError};
use vstd::prelude::*;
use vstd::string::*;

verus! {

/// A name as the caller typed it; login applies no length validation.
#[derive(Debug, Clone)]
pub struct UncheckedUserName(pub String);

impl View for UncheckedUserName {
    type V = Seq<char>;

    open spec fn view(&self) -> Seq<char> {
        self.0@
    }
}

impl PartialEq for UncheckedUserName {
    fn eq(&self, other: &Self) -> (r: bool) {
        self.0 == other.0
    }
}

impl vstd::std_specs::cmp::PartialEqSpecImpl for UncheckedUserName {
    open spec fn obeys_eq_spec() -> bool {
        true
    }

    open spec fn eq_spec(&self, other: &Self) -> bool {
        self.0@ == other.0@
    }
}

/// Outcome classifier of the login use case.
#[derive(Debug, Clone)]
pub enum LoginError {
    ValidationError(ValidationError),
    ServiceError(ServiceError),
}

impl PartialEq for LoginError {
    fn eq(&self, other: &Self) -> (r: bool) {
        match (self, other) {
            (LoginError::ValidationError(a), LoginError::ValidationError(b)) => a == b,
            (LoginError::ServiceError(a), LoginError::ServiceError(b)) => a == b,
            _ => false,
        }
    }
}

impl vstd::std_specs::cmp::PartialEqSpecImpl for LoginError {
    open spec fn obeys_eq_spec() -> bool {
        true
    }

    open spec fn eq_spec(&self, other: &Self) -> bool {
        match (self, other) {
            (LoginError::ValidationError(a), LoginError::ValidationError(b)) => a.0@ == b.0@,
            (LoginError::ServiceError(a), LoginError::ServiceError(b)) => a.0@ == b.0@,
            _ => false,
        }
    }
}

impl From<ValidationError> for LoginError {
    fn from(e: ValidationError) -> (r: Self) {
        LoginError::ValidationError(e)
    }
}

impl vstd::std_specs::convert::FromSpecImpl<ValidationError> for LoginError {
    open spec fn obeys_from_spec() -> bool {
        true
    }

    open spec fn from_spec(e: ValidationError) -> Self {
        LoginError::ValidationError(e)
    }
}

impl From<ServiceError> for LoginError {
    fn from(e: ServiceError) -> (r: Self) {
        LoginError::ServiceError(e)
    }
}

impl vstd::std_specs::convert::FromSpecImpl<ServiceError> for LoginError {
    open spec fn obeys_from_spec() -> bool {
        true
    }

    open spec fn from_spec(e: ServiceError) -> Self {
        LoginError::ServiceError(e)
    }
}

/// Repository port of the login use case.
pub trait LoginRepository: Sized {
    /// The names of the registered users. Impls redefine this; left alone
    /// it stays unspecified.
    open spec fn spec_user_names(&self) -> Seq<Seq<char>> {
        vstd::pervasive::arbitrary()
    }

    /// Does a user of exactly this name exist?
    fn user_exists(&self, user: &UncheckedUserName) -> (r: Result<bool, ServiceError>)
        ensures
            r matches Ok(b) ==> b == self.spec_user_names().contains(user@),
    ;
}

/// The login domain service: succeed iff a user of that name exists.
pub struct DomainServiceImpl<R: LoginRepository> {
    login_repository: R,
}

impl<R: LoginRepository> DomainServiceImpl<R> {
    /// The repository this service works against.
    pub closed spec fn repo(&self) -> R {
        self.login_repository
    }

    pub fn new(login_repository: R) -> (r: Self)
        ensures
            r.repo() == login_repository,
    {
        DomainServiceImpl { login_repository }
    }

    /// Gives the repository back, consuming the service.
    pub fn into_repository(self) -> (r: R)
        ensures
            r == self.repo(),
    {
        self.login_repository
    }

    /// Looks the name up; an absent user is a validation failure, a failing
    /// lookup a service failure.
    pub fn login(&self, user: UncheckedUserName) -> (r: Result<(), LoginError>)
        ensures
            r is Ok ==> self.repo().spec_user_names().contains(user@),
            r matches Err(LoginError::ValidationError(e)) ==> (e.0@ == "User not found"@
                && !self.repo().spec_user_names().contains(user@)),
            !self.repo().spec_user_names().contains(user@) ==> r is Err,
    {
        let exists_user = match self.login_repository.user_exists(&user) {
            Ok(b) => b,
            Err(e) => { return Err(LoginError::ServiceError(e)) },
        };
        if !exists_user {
            return Err(LoginError::ValidationError(ValidationError(String::from_str("User not found"))));
        }
        Ok(())
    }
}

} // verus!

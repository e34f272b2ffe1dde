//! The login application service: a pass-through wrapper whose contract is
//! its domain service's contract, unchanged.

use crate::login::{DomainServiceImpl, LoginError, LoginRepository, UncheckedUserName};
use vstd::prelude::*;

verus! {

/// The login application service.
pub struct AppServiceImpl<R: LoginRepository> {
    login_domain_service: DomainServiceImpl<R>,
}

impl<R: LoginRepository> AppServiceImpl<R> {
    /// The repository behind the wrapped domain service.
    pub closed spec fn repo(&self) -> R {
        self.login_domain_service.repo()
    }

    pub fn new(login_domain_service: DomainServiceImpl<R>) -> (r: Self)
        ensures
            r.repo() == login_domain_service.repo(),
    {
        AppServiceImpl { login_domain_service }
    }

    /// Gives the wrapped domain service back, consuming the wrapper.
    pub fn into_domain_service(self) -> (r: DomainServiceImpl<R>)
        ensures
            r.repo() == self.repo(),
    {
        self.login_domain_service
    }

    /// Runs the lookup; the outcome passes through unchanged.
    pub fn login(&self, user_name: UncheckedUserName) -> (r: Result<(), LoginError>)
        ensures
            r is Ok ==> self.repo().spec_user_names().contains(user_name@),
            r matches Err(LoginError::ValidationError(e)) ==> (e.0@ == "User not found"@
                && !self.repo().spec_user_names().contains(user_name@)),
            !self.repo().spec_user_names().contains(user_name@) ==> r is Err,
    {
        self.login_domain_service.login(user_name)
    }
}

} // verus!

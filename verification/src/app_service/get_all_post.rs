//! The get-all-posts application service: a pass-through wrapper whose
//! contract is its domain service's contract, unchanged.

use crate::err::ServiceError;
use crate::get_all_post::{DomainServiceImpl, GetAllPostRepository, Post};
use vstd::prelude::*;

verus! {

/// The get-all-posts application service.
pub struct AppServiceImpl<R: GetAllPostRepository> {
    get_all_post_domain_service: DomainServiceImpl<R>,
}

impl<R: GetAllPostRepository> AppServiceImpl<R> {
    /// The repository behind the wrapped domain service.
    pub closed spec fn repo(&self) -> R {
        self.get_all_post_domain_service.repo()
    }

    pub fn new(get_all_post_domain_service: DomainServiceImpl<R>) -> (r: Self)
        ensures
            r.repo() == get_all_post_domain_service.repo(),
    {
        AppServiceImpl { get_all_post_domain_service }
    }

    /// Gives the wrapped domain service back, consuming the wrapper.
    pub fn into_domain_service(self) -> (r: DomainServiceImpl<R>)
        ensures
            r.repo() == self.repo(),
    {
        self.get_all_post_domain_service
    }

    /// Lists the feed; the outcome passes through unchanged.
    pub fn get_all_post(&self) -> (r: Result<Vec<Post>, ServiceError>)
        ensures
            r matches Ok(ps) ==> ps@.map_values(|p: Post| p@) == self.repo().spec_feed(),
    {
        self.get_all_post_domain_service.get_all_post()
    }
}

} // verus!

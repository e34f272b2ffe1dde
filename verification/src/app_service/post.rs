//! The post application service: a pass-through wrapper whose contract is
//! its domain service's contract, unchanged.

use crate::model::{user_name_valid, MAX_USER_NAME_LENGTH, MIN_USER_NAME_LENGTH};
use crate::post::{DomainServiceImpl, PostError, PostRepository, PostView, UnvalidatedPost};
use crate::text::moderate;
use vstd::prelude::*;

verus! {

/// The post application service.
pub struct AppServiceImpl<R: PostRepository> {
    post_domain_service: DomainServiceImpl<R>,
}

impl<R: PostRepository> AppServiceImpl<R> {
    /// The repository behind the wrapped domain service.
    pub closed spec fn repo(&self) -> R {
        self.post_domain_service.repo()
    }

    pub fn new(post_domain_service: DomainServiceImpl<R>) -> (r: Self)
        ensures
            r.repo() == post_domain_service.repo(),
    {
        AppServiceImpl { post_domain_service }
    }

    /// Gives the wrapped domain service back, consuming the wrapper.
    pub fn into_domain_service(self) -> (r: DomainServiceImpl<R>)
        ensures
            r.repo() == self.repo(),
    {
        self.post_domain_service
    }

    /// Runs the domain transaction; the outcome passes through unchanged.
    pub fn post(&mut self, post: UnvalidatedPost) -> (r: Result<(), PostError>)
        ensures
            post.user_name@.len() < MIN_USER_NAME_LENGTH ==> (r matches Err(
                PostError::ValidationError(e),
            ) && e.0@ == "Username must be at least 3 characters long"@ && final(self).repo()
                == old(self).repo()),
            post.user_name@.len() > MAX_USER_NAME_LENGTH ==> (r matches Err(
                PostError::ValidationError(e),
            ) && e.0@ == "Username must be at most 16 characters long"@ && final(self).repo()
                == old(self).repo()),
            user_name_valid(post.user_name@) && !old(self).repo().spec_user_names().contains(
                post.user_name@,
            ) ==> (final(self).repo() == old(self).repo() && (r matches Err(
                PostError::ServiceError(_),
            ) || (r matches Err(PostError::ValidationError(e)) && e.0@ == "User does not exist"@))),
            r matches Err(PostError::ValidationError(e)) ==> (e.0@ == "User does not exist"@ ==> (
            user_name_valid(post.user_name@) && !old(self).repo().spec_user_names().contains(
                post.user_name@,
            ))),
            r matches Err(PostError::ValidationError(e)) ==> (e.0@ == "Content must not be empty"@
                ==> (user_name_valid(post.user_name@) && post.content@.len() == 0)),
            r is Ok ==> (user_name_valid(post.user_name@)
                && old(self).repo().spec_user_names().contains(post.user_name@)
                && post.content@.len() > 0
                && final(self).repo().spec_posts() == old(self).repo().spec_posts().push(
                (PostView {
                    user_name: post.user_name@,
                    content: moderate(post.content@, old(self).repo().spec_ng_words()),
                }),
            )),
            final(self).repo().spec_user_names() == old(self).repo().spec_user_names(),
            final(self).repo().spec_ng_words() == old(self).repo().spec_ng_words(),
            r is Err ==> final(self).repo().spec_posts() == old(self).repo().spec_posts(),
            r matches Err(PostError::ValidationError(_)) ==> final(self).repo() == old(self).repo(),
            r matches Err(PostError::ValidationError(e)) ==> (e.0@
                == "Username must be at least 3 characters long"@ ==> post.user_name@.len()
                < MIN_USER_NAME_LENGTH),
            r matches Err(PostError::ValidationError(e)) ==> (e.0@
                == "Username must be at most 16 characters long"@ ==> post.user_name@.len()
                > MAX_USER_NAME_LENGTH),
            r matches Err(PostError::ValidationError(e)) ==> (e.0@
                == "Username must be at least 3 characters long"@ || e.0@
                == "Username must be at most 16 characters long"@ || e.0@
                == "User does not exist"@ || e.0@ == "Content must not be empty"@),
    {
        self.post_domain_service.post(post)
    }
}

} // verus!

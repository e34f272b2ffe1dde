//! A register-user-name service over the split repository ports of
//! [`crate::repository`]: one capability checks NG-word containment, one
//! persists the name. A failed persist — a uniqueness violation included —
//! surfaces as a [`ServiceError`], never as a validation fault.

use crate::err::{RegisterUserNameError, ValidationError};
use crate::model::{
    user_name_valid, UnvalidatedUserName, UserName, MAX_USER_NAME_LENGTH, MIN_USER_NAME_LENGTH,
};
use crate::repository::{CheckUserNameNgWordRepository, CreateUserNameRepository};
use crate::text::any_word_in;
use vstd::prelude::*;
use vstd::string::*;

verus! {

/// The register-user-name domain service over the two split capabilities.
pub struct RegisterUserNameService<C: CheckUserNameNgWordRepository, K: CreateUserNameRepository> {
    check_user_name_ng_word_repository: C,
    create_user_name_repository: K,
}

impl<C: CheckUserNameNgWordRepository, K: CreateUserNameRepository> RegisterUserNameService<C, K> {
    /// The containment-check repository this service works against.
    pub closed spec fn check_repo(&self) -> C {
        self.check_user_name_ng_word_repository
    }

    /// The persistence repository this service works against.
    pub closed spec fn create_repo(&self) -> K {
        self.create_user_name_repository
    }

    pub fn new(check_user_name_ng_word_repository: C, create_user_name_repository: K) -> (r: Self)
        ensures
            r.check_repo() == check_user_name_ng_word_repository,
            r.create_repo() == create_user_name_repository,
    {
        RegisterUserNameService { check_user_name_ng_word_repository, create_user_name_repository }
    }

    /// Gives the two repositories back, consuming the service.
    pub fn into_repositories(self) -> (r: (C, K))
        ensures
            r.0 == self.check_repo(),
            r.1 == self.create_repo(),
    {
        (self.check_user_name_ng_word_repository, self.create_user_name_repository)
    }

    /// Validates the name, rejects it when an NG word occurs inside it, and
    /// persists it; a failed persist surfaces as a service failure.
    pub fn register_user_name(&mut self, user_name: UnvalidatedUserName) -> (r: Result<
        (),
        RegisterUserNameError,
    >)
        ensures
            user_name@.len() < MIN_USER_NAME_LENGTH ==> (r matches Err(
                RegisterUserNameError::ValidationError(e),
            ) && e.0@ == "Username must be at least 3 characters long"@ && final(self).create_repo()
                == old(self).create_repo()),
            user_name@.len() > MAX_USER_NAME_LENGTH ==> (r matches Err(
                RegisterUserNameError::ValidationError(e),
            ) && e.0@ == "Username must be at most 16 characters long"@ && final(self).create_repo()
                == old(self).create_repo()),
            // a containment hit is rejected with the fixed reason and
            // nothing is persisted; only the lookup's own failure may
            // surface instead, as a service error
            user_name_valid(user_name@) && any_word_in(
                user_name@,
                old(self).check_repo().spec_ng_words(),
            ) ==> (final(self).create_repo() == old(self).create_repo() && (r matches Err(
                RegisterUserNameError::ServiceError(_),
            ) || (r matches Err(RegisterUserNameError::ValidationError(e)) && e.0@
                == "Name must not contain NG words"@))),
            // a valid, NG-free name is refused only by the store itself
            user_name_valid(user_name@) && !any_word_in(
                user_name@,
                old(self).check_repo().spec_ng_words(),
            ) ==> (r is Ok || r matches Err(RegisterUserNameError::ServiceError(_))),
            // each validation reason names its cause, and the list is closed
            r matches Err(RegisterUserNameError::ValidationError(e)) ==> (e.0@
                == "Username must be at least 3 characters long"@ ==> user_name@.len()
                < MIN_USER_NAME_LENGTH),
            r matches Err(RegisterUserNameError::ValidationError(e)) ==> (e.0@
                == "Username must be at most 16 characters long"@ ==> user_name@.len()
                > MAX_USER_NAME_LENGTH),
            r matches Err(RegisterUserNameError::ValidationError(e)) ==> (e.0@
                == "Name must not contain NG words"@ ==> (user_name_valid(user_name@)
                && any_word_in(user_name@, old(self).check_repo().spec_ng_words()))),
            r matches Err(RegisterUserNameError::ValidationError(e)) ==> (e.0@
                == "Username must be at least 3 characters long"@ || e.0@
                == "Username must be at most 16 characters long"@ || e.0@
                == "Name must not contain NG words"@),
            // no failure writes a name
            r is Err ==> final(self).create_repo().spec_user_names() == old(
                self,
            ).create_repo().spec_user_names(),
            r is Ok ==> (user_name_valid(user_name@) && !any_word_in(
                user_name@,
                old(self).check_repo().spec_ng_words(),
            ) && final(self).create_repo().spec_user_names() == old(
                self,
            ).create_repo().spec_user_names().push(user_name@)),
    {
        proof {
            reveal_strlit("Username must be at least 3 characters long");
            reveal_strlit("Username must be at most 16 characters long");
            reveal_strlit("Name must not contain NG words");
            // the three reasons are pairwise distinct: the name-length
            // reasons differ from the containment reason in length, and
            // from each other at the word after "at"
            assert("Username must be at least 3 characters long"@.len() == 43);
            assert("Username must be at most 16 characters long"@.len() == 43);
            assert("Name must not contain NG words"@.len() == 30);
            assert("Username must be at least 3 characters long"@[20]
                != "Username must be at most 16 characters long"@[20]);
            assert("Username must be at least 3 characters long"@
                != "Username must be at most 16 characters long"@);
            assert("Username must be at least 3 characters long"@
                != "Name must not contain NG words"@);
            assert("Username must be at most 16 characters long"@
                != "Name must not contain NG words"@);
        }
        let user_name = match UserName::new(user_name.0.as_str()) {
            Ok(u) => u,
            Err(e) => { return Err(RegisterUserNameError::ValidationError(e)) },
        };

        let banned = match self.check_user_name_ng_word_repository.find_ng_word(user_name.clone()) {
            Ok(b) => b,
            Err(e) => { return Err(RegisterUserNameError::ServiceError(e)) },
        };
        if banned {
            return Err(
                RegisterUserNameError::ValidationError(
                    ValidationError(String::from_str("Name must not contain NG words")),
                ),
            );
        }

        match self.create_user_name_repository.create_user_name(user_name) {
            Ok(_) => Ok(()),
            Err(err) => Err(RegisterUserNameError::ServiceError(err)),
        }
    }
}

} // verus!

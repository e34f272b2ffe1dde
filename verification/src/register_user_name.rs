//! The register-user-name use case: validate a display name, reject it when
//! any stored NG word occurs inside it, and persist it.
//!
//! Uniqueness of the stored name is not pre-checked here: the store enforces
//! it, and a violation surfaces as a [`ServiceError`].

use crate::err::{RegisterUserNameError, ServiceError, ValidationError};
use crate::model::{
    user_name_valid, UnvalidatedUserName, UserName, MAX_USER_NAME_LENGTH, MIN_USER_NAME_LENGTH,
};
use crate::text::any_word_in;
use vstd::prelude::*;
use vstd::string::*;

verus! {

/// Repository port of the register-user-name use case.
pub trait RegisterUserNameRepository: Sized {
    /// The names of the registered users, in registration order. Impls
    /// redefine this; left alone it stays unspecified.
    open spec fn spec_user_names(&self) -> Seq<Seq<char>> {
        vstd::pervasive::arbitrary()
    }

    /// The NG-word dictionary. Impls redefine this; left alone it stays
    /// unspecified.
    open spec fn spec_ng_words(&self) -> Seq<Seq<char>> {
        vstd::pervasive::arbitrary()
    }

    /// Does any stored NG word occur inside the given name as a contiguous
    /// substring? A failing lookup surfaces as a service failure, never as
    /// a validation fault.
    fn find_ng_word(&self, user_name: &UserName) -> (r: Result<bool, RegisterUserNameError>)
        ensures
            r matches Ok(b) ==> b == any_word_in(user_name@, self.spec_ng_words()),
            r matches Err(e) ==> e is ServiceError,
    ;

    /// Appends the name to the store; the store enforces uniqueness, and a
    /// failed insert leaves the store as it was.
    fn create_user_name(&mut self, user_name: &UserName) -> (r: Result<(), ServiceError>)
        ensures
            r is Ok ==> final(self).spec_user_names() == old(self).spec_user_names().push(
                user_name@,
            ),
            r is Err ==> final(self).spec_user_names() == old(self).spec_user_names(),
            final(self).spec_ng_words() == old(self).spec_ng_words(),
    ;
}

/// The register-user-name domain service.
pub struct Service<R: RegisterUserNameRepository> {
    register_user_name_repository: R,
}

impl<R: RegisterUserNameRepository> Service<R> {
    /// The repository this service works against.
    pub closed spec fn repo(&self) -> R {
        self.register_user_name_repository
    }

    pub fn new(register_user_name_repository: R) -> (r: Self)
        ensures
            r.repo() == register_user_name_repository,
    {
        Service { register_user_name_repository }
    }

    /// Gives the repository back, consuming the service.
    pub fn into_repository(self) -> (r: R)
        ensures
            r == self.repo(),
    {
        self.register_user_name_repository
    }

    /// Validates the name, rejects it when an NG word occurs inside it, and
    /// persists it.
    pub fn register_user_name(&mut self, user_name: UnvalidatedUserName) -> (r: Result<
        (),
        RegisterUserNameError,
    >)
        ensures
            user_name@.len() < MIN_USER_NAME_LENGTH ==> (r matches Err(
                RegisterUserNameError::ValidationError(e),
            ) && e.0@ == "Username must be at least 3 characters long"@ && final(self).repo()
                == old(self).repo()),
            user_name@.len() > MAX_USER_NAME_LENGTH ==> (r matches Err(
                RegisterUserNameError::ValidationError(e),
            ) && e.0@ == "Username must be at most 16 characters long"@ && final(self).repo()
                == old(self).repo()),
            // a containment hit is rejected with the fixed reason and the
            // store is left untouched; only the lookup's own failure may
            // surface instead, as a service error
            user_name_valid(user_name@) && any_word_in(
                user_name@,
                old(self).repo().spec_ng_words(),
            ) ==> (final(self).repo() == old(self).repo() && (r matches Err(
                RegisterUserNameError::ServiceError(_),
            ) || (r matches Err(RegisterUserNameError::ValidationError(e)) && e.0@
                == "Name must not contain NG words"@))),
            // a valid, NG-free name is refused only by the store itself
            user_name_valid(user_name@) && !any_word_in(
                user_name@,
                old(self).repo().spec_ng_words(),
            ) ==> (r is Ok || r matches Err(RegisterUserNameError::ServiceError(_))),
            // each validation reason names its cause, and the list is closed
            r matches Err(RegisterUserNameError::ValidationError(e)) ==> (e.0@
                == "Username must be at least 3 characters long"@ ==> user_name@.len()
                < MIN_USER_NAME_LENGTH),
            r matches Err(RegisterUserNameError::ValidationError(e)) ==> (e.0@
                == "Username must be at most 16 characters long"@ ==> user_name@.len()
                > MAX_USER_NAME_LENGTH),
            r matches Err(RegisterUserNameError::ValidationError(e)) ==> (e.0@
                == "Name must not contain NG words"@ ==> (user_name_valid(user_name@)
                && any_word_in(user_name@, old(self).repo().spec_ng_words()))),
            r matches Err(RegisterUserNameError::ValidationError(e)) ==> (e.0@
                == "Username must be at least 3 characters long"@ || e.0@
                == "Username must be at most 16 characters long"@ || e.0@
                == "Name must not contain NG words"@),
            // no failure writes a name
            r is Err ==> final(self).repo().spec_user_names() == old(
                self,
            ).repo().spec_user_names(),
            r is Ok ==> (user_name_valid(user_name@) && !any_word_in(
                user_name@,
                old(self).repo().spec_ng_words(),
            ) && final(self).repo().spec_user_names() == old(self).repo().spec_user_names().push(
                user_name@,
            ) && final(self).repo().spec_ng_words() == old(self).repo().spec_ng_words()),
    {
        proof {
            reveal_strlit("Username must be at least 3 characters long");
            reveal_strlit("Username must be at most 16 characters long");
            reveal_strlit("Name must not contain NG words");
            // the three reasons are pairwise distinct: the name-length
            // reasons differ from the containment reason in length, and
            // from each other at the word after "at"
            assert("Username must be at least 3 characters long"@.len() == 43);
            assert("Username must be at most 16 characters long"@.len() == 43);
            assert("Name must not contain NG words"@.len() == 30);
            assert("Username must be at least 3 characters long"@[20]
                != "Username must be at most 16 characters long"@[20]);
            assert("Username must be at least 3 characters long"@
                != "Username must be at most 16 characters long"@);
            assert("Username must be at least 3 characters long"@
                != "Name must not contain NG words"@);
            assert("Username must be at most 16 characters long"@
                != "Name must not contain NG words"@);
        }
        let user_name = match UserName::new(user_name.0.as_str()) {
            Ok(u) => u,
            Err(e) => { return Err(RegisterUserNameError::ValidationError(e)) },
        };

        let banned = match self.register_user_name_repository.find_ng_word(&user_name) {
            Ok(b) => b,
            Err(e) => { return Err(e) },
        };
        if banned {
            return Err(
                RegisterUserNameError::ValidationError(
                    ValidationError(String::from_str("Name must not contain NG words")),
                ),
            );
        }

        match self.register_user_name_repository.create_user_name(&user_name) {
            Ok(_) => Ok(()),
            Err(err) => Err(RegisterUserNameError::ServiceError(err)),
        }
    }
}

/// The same business transaction under the name the per-use-case wiring
/// composes: validate, check NG-word containment, persist. Behaviourally
/// identical to [`Service`].
pub struct DomainServiceImpl<R: RegisterUserNameRepository> {
    register_user_name_repository: R,
}

impl<R: RegisterUserNameRepository> DomainServiceImpl<R> {
    /// The repository this service works against.
    pub closed spec fn repo(&self) -> R {
        self.register_user_name_repository
    }

    pub fn new(register_user_name_repository: R) -> (r: Self)
        ensures
            r.repo() == register_user_name_repository,
    {
        DomainServiceImpl { register_user_name_repository }
    }

    /// Gives the repository back, consuming the service.
    pub fn into_repository(self) -> (r: R)
        ensures
            r == self.repo(),
    {
        self.register_user_name_repository
    }

    /// Validates the name, rejects it when an NG word occurs inside it, and
    /// persists it.
    pub fn register_user_name(&mut self, user_name: UnvalidatedUserName) -> (r: Result<
        (),
        RegisterUserNameError,
    >)
        ensures
            user_name@.len() < MIN_USER_NAME_LENGTH ==> (r matches Err(
                RegisterUserNameError::ValidationError(e),
            ) && e.0@ == "Username must be at least 3 characters long"@ && final(self).repo()
                == old(self).repo()),
            user_name@.len() > MAX_USER_NAME_LENGTH ==> (r matches Err(
                RegisterUserNameError::ValidationError(e),
            ) && e.0@ == "Username must be at most 16 characters long"@ && final(self).repo()
                == old(self).repo()),
            user_name_valid(user_name@) && any_word_in(
                user_name@,
                old(self).repo().spec_ng_words(),
            ) ==> (final(self).repo() == old(self).repo() && (r matches Err(
                RegisterUserNameError::ServiceError(_),
            ) || (r matches Err(RegisterUserNameError::ValidationError(e)) && e.0@
                == "Name must not contain NG words"@))),
            // a valid, NG-free name is refused only by the store itself
            user_name_valid(user_name@) && !any_word_in(
                user_name@,
                old(self).repo().spec_ng_words(),
            ) ==> (r is Ok || r matches Err(RegisterUserNameError::ServiceError(_))),
            // each validation reason names its cause, and the list is closed
            r matches Err(RegisterUserNameError::ValidationError(e)) ==> (e.0@
                == "Username must be at least 3 characters long"@ ==> user_name@.len()
                < MIN_USER_NAME_LENGTH),
            r matches Err(RegisterUserNameError::ValidationError(e)) ==> (e.0@
                == "Username must be at most 16 characters long"@ ==> user_name@.len()
                > MAX_USER_NAME_LENGTH),
            r matches Err(RegisterUserNameError::ValidationError(e)) ==> (e.0@
                == "Name must not contain NG words"@ ==> (user_name_valid(user_name@)
                && any_word_in(user_name@, old(self).repo().spec_ng_words()))),
            r matches Err(RegisterUserNameError::ValidationError(e)) ==> (e.0@
                == "Username must be at least 3 characters long"@ || e.0@
                == "Username must be at most 16 characters long"@ || e.0@
                == "Name must not contain NG words"@),
            // no failure writes a name
            r is Err ==> final(self).repo().spec_user_names() == old(
                self,
            ).repo().spec_user_names(),
            r is Ok ==> (user_name_valid(user_name@) && !any_word_in(
                user_name@,
                old(self).repo().spec_ng_words(),
            ) && final(self).repo().spec_user_names() == old(self).repo().spec_user_names().push(
                user_name@,
            ) && final(self).repo().spec_ng_words() == old(self).repo().spec_ng_words()),
    {
        proof {
            reveal_strlit("Username must be at least 3 characters long");
            reveal_strlit("Username must be at most 16 characters long");
            reveal_strlit("Name must not contain NG words");
            // the three reasons are pairwise distinct: the name-length
            // reasons differ from the containment reason in length, and
            // from each other at the word after "at"
            assert("Username must be at least 3 characters long"@.len() == 43);
            assert("Username must be at most 16 characters long"@.len() == 43);
            assert("Name must not contain NG words"@.len() == 30);
            assert("Username must be at least 3 characters long"@[20]
                != "Username must be at most 16 characters long"@[20]);
            assert("Username must be at least 3 characters long"@
                != "Username must be at most 16 characters long"@);
            assert("Username must be at least 3 characters long"@
                != "Name must not contain NG words"@);
            assert("Username must be at most 16 characters long"@
                != "Name must not contain NG words"@);
        }
        let user_name = match UserName::new(user_name.0.as_str()) {
            Ok(u) => u,
            Err(e) => { return Err(RegisterUserNameError::ValidationError(e)) },
        };

        let banned = match self.register_user_name_repository.find_ng_word(&user_name) {
            Ok(b) => b,
            Err(e) => { return Err(e) },
        };
        if banned {
            return Err(
                RegisterUserNameError::ValidationError(
                    ValidationError(String::from_str("Name must not contain NG words")),
                ),
            );
        }

        let register_result = self.register_user_name_repository.create_user_name(&user_name);
        if let Err(err) = register_result {
            return Err(RegisterUserNameError::ServiceError(err));
        }
        Ok(())
    }
}

} // verus!

//! The register-NG-word use case: validate a word and store it together
//! with the registering user's numeric identifier.
//!
//! No duplicate check is performed here; uniqueness is the store's concern
//! and any violation surfaces as a [`ServiceError`].

use crate::err::{ServiceError, ValidationError};
use crate::model::{ng_word_valid, NgWord, MAX_NG_WORD_LENGTH, MIN_NG_WORD_LENGTH};
use vstd::prelude::*;

verus! {

/// Outcome classifier of the register-NG-word use case.
#[derive(Debug, Clone)]
pub enum RegisterNgWordError {
    ValidationError(ValidationError),
    ServiceError(ServiceError),
}

impl PartialEq for RegisterNgWordError {
    fn eq(&self, other: &Self) -> (r: bool) {
        match (self, other) {
            (RegisterNgWordError::ValidationError(a), RegisterNgWordError::ValidationError(b)) => a
                == b,
            (RegisterNgWordError::ServiceError(a), RegisterNgWordError::ServiceError(b)) => a == b,
            _ => false,
        }
    }
}

impl vstd::std_specs::cmp::PartialEqSpecImpl for RegisterNgWordError {
    open spec fn obeys_eq_spec() -> bool {
        true
    }

    open spec fn eq_spec(&self, other: &Self) -> bool {
        match (self, other) {
            (RegisterNgWordError::ValidationError(a), RegisterNgWordError::ValidationError(b)) => a.0@
                == b.0@,
            (RegisterNgWordError::ServiceError(a), RegisterNgWordError::ServiceError(b)) => a.0@
                == b.0@,
            _ => false,
        }
    }
}

impl From<ValidationError> for RegisterNgWordError {
    fn from(e: ValidationError) -> (r: Self) {
        RegisterNgWordError::ValidationError(e)
    }
}

impl vstd::std_specs::convert::FromSpecImpl<ValidationError> for RegisterNgWordError {
    open spec fn obeys_from_spec() -> bool {
        true
    }

    open spec fn from_spec(e: ValidationError) -> Self {
        RegisterNgWordError::ValidationError(e)
    }
}

impl From<ServiceError> for RegisterNgWordError {
    fn from(e: ServiceError) -> (r: Self) {
        RegisterNgWordError::ServiceError(e)
    }
}

impl vstd::std_specs::convert::FromSpecImpl<ServiceError> for RegisterNgWordError {
    open spec fn obeys_from_spec() -> bool {
        true
    }

    open spec fn from_spec(e: ServiceError) -> Self {
        RegisterNgWordError::ServiceError(e)
    }
}

/// Repository port of the register-NG-word use case.
pub trait RegisterNgWordRepository: Sized {
    /// The registered NG words, each with the registering user, in order.
    /// Impls redefine this; left alone it stays unspecified.
    open spec fn spec_registered_words(&self) -> Seq<(Seq<char>, i32)> {
        vstd::pervasive::arbitrary()
    }

    /// Appends an NG word together with its author; a failed insert leaves
    /// the store as it was.
    fn register_ng_word(&mut self, ng_word: &NgWord, user_id: i32) -> (r: Result<
        (),
        ServiceError,
    >)
        ensures
            r is Ok ==> final(self).spec_registered_words() == old(
                self,
            ).spec_registered_words().push((ng_word@, user_id)),
            r is Err ==> final(self).spec_registered_words() == old(self).spec_registered_words(),
    ;
}

/// The register-NG-word domain service.
pub struct DomainServiceImpl<R: RegisterNgWordRepository> {
    register_ng_word_repository: R,
}

impl<R: RegisterNgWordRepository> DomainServiceImpl<R> {
    /// The repository this service works against.
    pub closed spec fn repo(&self) -> R {
        self.register_ng_word_repository
    }

    pub fn new(register_ng_word_repository: R) -> (r: Self)
        ensures
            r.repo() == register_ng_word_repository,
    {
        DomainServiceImpl { register_ng_word_repository }
    }

    /// Gives the repository back, consuming the service.
    pub fn into_repository(self) -> (r: R)
        ensures
            r == self.repo(),
    {
        self.register_ng_word_repository
    }

    /// Validates the word's length and persists it with its author.
    pub fn register_ng_word(&mut self, ng_word: &str, user_id: i32) -> (r: Result<
        (),
        RegisterNgWordError,
    >)
        ensures
            ng_word@.len() < MIN_NG_WORD_LENGTH ==> (r matches Err(
                RegisterNgWordError::ValidationError(e),
            ) && e.0@ == "NgWord must be at least 3 characters long"@ && final(self).repo() == old(
                self,
            ).repo()),
            ng_word@.len() > MAX_NG_WORD_LENGTH ==> (r matches Err(
                RegisterNgWordError::ValidationError(e),
            ) && e.0@ == "NgWord must be at most 10 characters long"@ && final(self).repo() == old(
                self,
            ).repo()),
            r matches Err(RegisterNgWordError::ValidationError(_)) ==> !ng_word_valid(ng_word@),
            // each validation reason names its cause, and the list is closed
            r matches Err(RegisterNgWordError::ValidationError(e)) ==> (e.0@
                == "NgWord must be at least 3 characters long"@ ==> ng_word@.len()
                < MIN_NG_WORD_LENGTH),
            r matches Err(RegisterNgWordError::ValidationError(e)) ==> (e.0@
                == "NgWord must be at most 10 characters long"@ ==> ng_word@.len()
                > MAX_NG_WORD_LENGTH),
            r matches Err(RegisterNgWordError::ValidationError(e)) ==> (e.0@
                == "NgWord must be at least 3 characters long"@ || e.0@
                == "NgWord must be at most 10 characters long"@),
            // no failure registers a word
            r is Err ==> final(self).repo().spec_registered_words() == old(
                self,
            ).repo().spec_registered_words(),
            r is Ok ==> (ng_word_valid(ng_word@) && final(self).repo().spec_registered_words()
                == old(self).repo().spec_registered_words().push((ng_word@, user_id))),
    {
        proof {
            reveal_strlit("NgWord must be at least 3 characters long");
            reveal_strlit("NgWord must be at most 10 characters long");
            // the two reasons differ at the word after "at"
            assert("NgWord must be at least 3 characters long"@.len() == 41);
            assert("NgWord must be at most 10 characters long"@.len() == 41);
            assert("NgWord must be at least 3 characters long"@[18]
                != "NgWord must be at most 10 characters long"@[18]);
            assert("NgWord must be at least 3 characters long"@
                != "NgWord must be at most 10 characters long"@);
        }
        let ng_word = match NgWord::new(ng_word) {
            Ok(w) => w,
            Err(e) => { return Err(RegisterNgWordError::ValidationError(e)) },
        };
        match self.register_ng_word_repository.register_ng_word(&ng_word, user_id) {
            Ok(_) => Ok(()),
            Err(e) => Err(RegisterNgWordError::ServiceError(e)),
        }
    }
}

} // verus!

//! The register-NG-word application service: a pass-through wrapper whose
//! contract is its domain service's contract, unchanged.

use crate::model::{ng_word_valid, MAX_NG_WORD_LENGTH, MIN_NG_WORD_LENGTH};
use crate::register_ng_word::{DomainServiceImpl, RegisterNgWordError, RegisterNgWordRepository};
use vstd::prelude::*;

verus! {

/// The register-NG-word application service.
pub struct AppServiceImpl<R: RegisterNgWordRepository> {
    register_ng_word_domain_service: DomainServiceImpl<R>,
}

impl<R: RegisterNgWordRepository> AppServiceImpl<R> {
    /// The repository behind the wrapped domain service.
    pub closed spec fn repo(&self) -> R {
        self.register_ng_word_domain_service.repo()
    }

    pub fn new(register_ng_word_domain_service: DomainServiceImpl<R>) -> (r: Self)
        ensures
            r.repo() == register_ng_word_domain_service.repo(),
    {
        AppServiceImpl { register_ng_word_domain_service }
    }

    /// Gives the wrapped domain service back, consuming the wrapper.
    pub fn into_domain_service(self) -> (r: DomainServiceImpl<R>)
        ensures
            r.repo() == self.repo(),
    {
        self.register_ng_word_domain_service
    }

    /// Runs the domain transaction; the outcome passes through unchanged.
    pub fn register_ng_word(&mut self, ng_word: &str, user_id: i32) -> (r: Result<
        (),
        RegisterNgWordError,
    >)
        ensures
            ng_word@.len() < MIN_NG_WORD_LENGTH ==> (r matches Err(
                RegisterNgWordError::ValidationError(e),
            ) && e.0@ == "NgWord must be at least 3 characters long"@ && final(self).repo() == old(
                self,
            ).repo()),
            ng_word@.len() > MAX_NG_WORD_LENGTH ==> (r matches Err(
                RegisterNgWordError::ValidationError(e),
            ) && e.0@ == "NgWord must be at most 10 characters long"@ && final(self).repo() == old(
                self,
            ).repo()),
            r matches Err(RegisterNgWordError::ValidationError(_)) ==> !ng_word_valid(ng_word@),
            // each validation reason names its cause, and the list is closed
            r matches Err(RegisterNgWordError::ValidationError(e)) ==> (e.0@
                == "NgWord must be at least 3 characters long"@ ==> ng_word@.len()
                < MIN_NG_WORD_LENGTH),
            r matches Err(RegisterNgWordError::ValidationError(e)) ==> (e.0@
                == "NgWord must be at most 10 characters long"@ ==> ng_word@.len()
                > MAX_NG_WORD_LENGTH),
            r matches Err(RegisterNgWordError::ValidationError(e)) ==> (e.0@
                == "NgWord must be at least 3 characters long"@ || e.0@
                == "NgWord must be at most 10 characters long"@),
            r is Err ==> final(self).repo().spec_registered_words() == old(
                self,
            ).repo().spec_registered_words(),
            r is Ok ==> (ng_word_valid(ng_word@) && final(self).repo().spec_registered_words()
                == old(self).repo().spec_registered_words().push((ng_word@, user_id))),
    {
        proof {
            reveal_strlit("NgWord must be at least 3 characters long");
            reveal_strlit("NgWord must be at most 10 characters long");
            // the two reasons differ at the word after "at"
            assert("NgWord must be at least 3 characters long"@.len() == 41);
            assert("NgWord must be at most 10 characters long"@.len() == 41);
            assert("NgWord must be at least 3 characters long"@[18]
                != "NgWord must be at most 10 characters long"@[18]);
            assert("NgWord must be at least 3 characters long"@
                != "NgWord must be at most 10 characters long"@);
        }
        self.register_ng_word_domain_service.register_ng_word(ng_word, user_id)
    }
}

} // verus!

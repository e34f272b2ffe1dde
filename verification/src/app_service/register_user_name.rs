//! The register-user-name application service: wraps the domain service and
//! maps its error onto a wire-facing form that never leaks a service-side
//! reason.

use crate::err::RegisterUserNameError;
use crate::model::{
    user_name_valid, UnvalidatedUserName, MAX_USER_NAME_LENGTH, MIN_USER_NAME_LENGTH,
};
use crate::register_user_name::{DomainServiceImpl, RegisterUserNameRepository};
use crate::text::any_word_in;
use vstd::prelude::*;
use vstd::string::*;

verus! {

/// A display name as it arrives on the wire.
#[derive(Debug, Clone)]
pub struct UserNameDto(pub String);

impl View for UserNameDto {
    type V = Seq<char>;

    open spec fn view(&self) -> Seq<char> {
        self.0@
    }
}

impl PartialEq for UserNameDto {
    fn eq(&self, other: &Self) -> (r: bool) {
        self.0 == other.0
    }
}

impl vstd::std_specs::cmp::PartialEqSpecImpl for UserNameDto {
    open spec fn obeys_eq_spec() -> bool {
        true
    }

    open spec fn eq_spec(&self, other: &Self) -> bool {
        self.0@ == other.0@
    }
}

/// The wire-facing failure of registering a user name: a client error keeps
/// the validation reason, a server error shows only a generic message.
#[derive(Debug, Clone)]
pub struct RegisterUserNameErrorDto {
    pub error_code: u16,
    pub error_message: String,
}

impl PartialEq for RegisterUserNameErrorDto {
    fn eq(&self, other: &Self) -> (r: bool) {
        self.error_code == other.error_code && self.error_message == other.error_message
    }
}

impl vstd::std_specs::cmp::PartialEqSpecImpl for RegisterUserNameErrorDto {
    open spec fn obeys_eq_spec() -> bool {
        true
    }

    open spec fn eq_spec(&self, other: &Self) -> bool {
        self.error_code == other.error_code && self.error_message@ == other.error_message@
    }
}

impl RegisterUserNameErrorDto {
    /// Maps a validation failure to a client error carrying its reason, and
    /// a service failure to a server error with a generic message.
    pub fn from(err: RegisterUserNameError) -> (r: Self)
        ensures
            err matches RegisterUserNameError::ValidationError(e) ==> (r.error_code == 400
                && r.error_message@ == e.0@),
            err is ServiceError ==> (r.error_code == 500 && r.error_message@
                == "Internal Server Error"@),
    {
        match err {
            RegisterUserNameError::ValidationError(err) => RegisterUserNameErrorDto {
                error_code: 400,
                error_message: err.0,
            },
            RegisterUserNameError::ServiceError(_) => RegisterUserNameErrorDto {
                error_code: 500,
                error_message: String::from_str("Internal Server Error"),
            },
        }
    }
}

/// The register-user-name application service.
pub struct AppServiceImpl<R: RegisterUserNameRepository> {
    register_user_name_domain_service: DomainServiceImpl<R>,
}

impl<R: RegisterUserNameRepository> AppServiceImpl<R> {
    /// The repository behind the wrapped domain service.
    pub closed spec fn repo(&self) -> R {
        self.register_user_name_domain_service.repo()
    }

    pub fn new(register_user_name_domain_service: DomainServiceImpl<R>) -> (r: Self)
        ensures
            r.repo() == register_user_name_domain_service.repo(),
    {
        AppServiceImpl { register_user_name_domain_service }
    }

    /// Gives the wrapped domain service back, consuming the wrapper.
    pub fn into_domain_service(self) -> (r: DomainServiceImpl<R>)
        ensures
            r.repo() == self.repo(),
    {
        self.register_user_name_domain_service
    }

    /// Runs the domain transaction and maps its failure onto the wire form;
    /// the outcome itself is the domain service's, unchanged.
    pub fn register_user_name(&mut self, user_name: UserNameDto) -> (r: Result<
        (),
        RegisterUserNameErrorDto,
    >)
        ensures
            user_name@.len() < MIN_USER_NAME_LENGTH ==> (r matches Err(dto) && dto.error_code
                == 400 && dto.error_message@ == "Username must be at least 3 characters long"@
                && final(self).repo() == old(self).repo()),
            user_name@.len() > MAX_USER_NAME_LENGTH ==> (r matches Err(dto) && dto.error_code
                == 400 && dto.error_message@ == "Username must be at most 16 characters long"@
                && final(self).repo() == old(self).repo()),
            // a containment hit answers a client error with the fixed
            // reason, or a server error when the lookup itself failed; the
            // store is left untouched
            user_name_valid(user_name@) && any_word_in(
                user_name@,
                old(self).repo().spec_ng_words(),
            ) ==> final(self).repo() == old(self).repo(),
            user_name_valid(user_name@) && any_word_in(
                user_name@,
                old(self).repo().spec_ng_words(),
            ) ==> (r matches Err(dto) && ((dto.error_code == 400 && dto.error_message@
                == "Name must not contain NG words"@) || (dto.error_code == 500
                && dto.error_message@ == "Internal Server Error"@))),
            // a valid, NG-free name fails only server-side
            user_name_valid(user_name@) && !any_word_in(
                user_name@,
                old(self).repo().spec_ng_words(),
            ) ==> (r is Ok || (r matches Err(dto) && dto.error_code == 500 && dto.error_message@
                == "Internal Server Error"@)),
            // each client-error reason names its cause, and the list is
            // closed
            r matches Err(dto) ==> (dto.error_message@
                == "Username must be at least 3 characters long"@ ==> user_name@.len()
                < MIN_USER_NAME_LENGTH),
            r matches Err(dto) ==> (dto.error_message@
                == "Username must be at most 16 characters long"@ ==> user_name@.len()
                > MAX_USER_NAME_LENGTH),
            r matches Err(dto) ==> (dto.error_message@ == "Name must not contain NG words"@ ==> (
            user_name_valid(user_name@) && any_word_in(
                user_name@,
                old(self).repo().spec_ng_words(),
            ))),
            r matches Err(dto) ==> (dto.error_code == 400 ==> (dto.error_message@
                == "Username must be at least 3 characters long"@ || dto.error_message@
                == "Username must be at most 16 characters long"@ || dto.error_message@
                == "Name must not contain NG words"@)),
            // no failure writes a name
            r is Err ==> final(self).repo().spec_user_names() == old(
                self,
            ).repo().spec_user_names(),
            r is Ok ==> (user_name_valid(user_name@) && !any_word_in(
                user_name@,
                old(self).repo().spec_ng_words(),
            ) && final(self).repo().spec_user_names() == old(self).repo().spec_user_names().push(
                user_name@,
            ) && final(self).repo().spec_ng_words() == old(self).repo().spec_ng_words()),
            // a server-side failure never leaks its reason to the caller
            r matches Err(dto) ==> (dto.error_code == 400 || dto.error_code == 500),
            r matches Err(dto) ==> (dto.error_code == 500 ==> dto.error_message@
                == "Internal Server Error"@),
    {
        proof {
            reveal_strlit("Username must be at least 3 characters long");
            reveal_strlit("Username must be at most 16 characters long");
            reveal_strlit("Name must not contain NG words");
            reveal_strlit("Internal Server Error");
            // the three validation reasons and the generic server message
            // are pairwise distinct where the clauses need it
            assert("Username must be at least 3 characters long"@.len() == 43);
            assert("Username must be at most 16 characters long"@.len() == 43);
            assert("Name must not contain NG words"@.len() == 30);
            assert("Internal Server Error"@.len() == 21);
            assert("Username must be at least 3 characters long"@[20]
                != "Username must be at most 16 characters long"@[20]);
            assert("Username must be at least 3 characters long"@
                != "Username must be at most 16 characters long"@);
            assert("Username must be at least 3 characters long"@
                != "Name must not contain NG words"@);
            assert("Username must be at most 16 characters long"@
                != "Name must not contain NG words"@);
            assert("Internal Server Error"@ != "Username must be at least 3 characters long"@);
            assert("Internal Server Error"@ != "Username must be at most 16 characters long"@);
            assert("Internal Server Error"@ != "Name must not contain NG words"@);
        }
        let unvalidated_user_name = UnvalidatedUserName(user_name.0.clone());
        let result = self.register_user_name_domain_service.register_user_name(
            unvalidated_user_name,
        );
        match result {
            Ok(_) => Ok(()),
            Err(err) => Err(RegisterUserNameErrorDto::from(err)),
        }
    }
}

} // verus!

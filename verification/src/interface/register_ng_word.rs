//! The wire-facing failure body of the register-NG-word endpoint.

use crate::register_ng_word::RegisterNgWordError;
use vstd::prelude::*;
use vstd::string::*;

verus! {

/// A client error keeps the validation reason; a server error shows only a
/// generic message.
#[derive(Debug, Clone)]
pub struct RegisterNgWordErrorDto {
    pub error_code: u16,
    pub error_message: String,
}

impl PartialEq for RegisterNgWordErrorDto {
    fn eq(&self, other: &Self) -> (r: bool) {
        self.error_code == other.error_code && self.error_message == other.error_message
    }
}

impl vstd::std_specs::cmp::PartialEqSpecImpl for RegisterNgWordErrorDto {
    open spec fn obeys_eq_spec() -> bool {
        true
    }

    open spec fn eq_spec(&self, other: &Self) -> bool {
        self.error_code == other.error_code && self.error_message@ == other.error_message@
    }
}

impl RegisterNgWordErrorDto {
    /// Maps a validation failure to a client error carrying its reason, and
    /// a service failure to a server error whose reason stays internal.
    pub fn from(err: RegisterNgWordError) -> (r: Self)
        ensures
            err matches RegisterNgWordError::ValidationError(e) ==> (r.error_code == 400
                && r.error_message@ == e.0@),
            err is ServiceError ==> (r.error_code == 500 && r.error_message@
                == "Internal Server Error"@),
    {
        match err {
            RegisterNgWordError::ValidationError(err) => RegisterNgWordErrorDto {
                error_code: 400,
                error_message: err.0,
            },
            RegisterNgWordError::ServiceError(_) => RegisterNgWordErrorDto {
                error_code: 500,
                error_message: String::from_str("Internal Server Error"),
            },
        }
    }
}

} // verus!

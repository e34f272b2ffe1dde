//! Split repository ports for registering a user name: one capability for
//! the NG-word containment check, one for persisting the name.

use crate::err::ServiceError;
use crate::model::UserName;
use crate::text::any_word_in;
use vstd::prelude::*;

verus! {

/// Capability to ask whether any stored NG word occurs inside a name.
pub trait CheckUserNameNgWordRepository: Sized {
    /// The NG-word dictionary. Impls redefine this; left alone it stays
    /// unspecified.
    open spec fn spec_ng_words(&self) -> Seq<Seq<char>> {
        vstd::pervasive::arbitrary()
    }

    /// Does any stored NG word occur inside the given name as a contiguous
    /// substring?
    fn find_ng_word(&self, user_name: UserName) -> (r: Result<bool, ServiceError>)
        ensures
            r matches Ok(b) ==> b == any_word_in(user_name@, self.spec_ng_words()),
    ;
}

/// Capability to persist a validated user name.
pub trait CreateUserNameRepository: Sized {
    /// The names of the registered users, in registration order. Impls
    /// redefine this; left alone it stays unspecified.
    open spec fn spec_user_names(&self) -> Seq<Seq<char>> {
        vstd::pervasive::arbitrary()
    }

    /// Appends the name to the store; the store enforces uniqueness, and a
    /// failed insert leaves the store as it was.
    fn create_user_name(&mut self, user_name: UserName) -> (r: Result<(), ServiceError>)
        ensures
            r is Ok ==> final(self).spec_user_names() == old(self).spec_user_names().push(
                user_name@,
            ),
            r is Err ==> final(self).spec_user_names() == old(self).spec_user_names(),
    ;
}

} // verus!

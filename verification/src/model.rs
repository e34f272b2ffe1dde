//! Value objects of the bulletin board: display names and NG words.
//!
//! Both are smart constructors over plain text: a value exists only if its
//! length invariant holds. Lengths are counted in characters. The NG-word
//! upper bound is the policy constant [`MAX_NG_WORD_LENGTH`] (ten characters).

use crate::err::ValidationError;
use vstd::prelude::*;
use vstd::string::*;

verus! {

/// A registered display name must have at least this many characters.
pub const MIN_USER_NAME_LENGTH: usize = 3;

/// A registered display name must have at most this many characters.
pub const MAX_USER_NAME_LENGTH: usize = 16;

/// An NG word must have at least this many characters.
pub const MIN_NG_WORD_LENGTH: usize = 3;

/// An NG word must have at most this many characters.
pub const MAX_NG_WORD_LENGTH: usize = 10;

/// Holds iff `s` is an acceptable display name.
pub open spec fn user_name_valid(s: Seq<char>) -> bool {
    MIN_USER_NAME_LENGTH <= s.len() && s.len() <= MAX_USER_NAME_LENGTH
}

/// Holds iff `s` is an acceptable NG word.
pub open spec fn ng_word_valid(s: Seq<char>) -> bool {
    MIN_NG_WORD_LENGTH <= s.len() && s.len() <= MAX_NG_WORD_LENGTH
}

/// Raw caller input for a display name; nothing is known about it yet.
#[derive(Debug, Clone)]
pub struct UnvalidatedUserName(pub String);

impl View for UnvalidatedUserName {
    type V = Seq<char>;

    open spec fn view(&self) -> Seq<char> {
        self.0@
    }
}

impl PartialEq for UnvalidatedUserName {
    fn eq(&self, other: &Self) -> (r: bool) {
        self.0 == other.0
    }
}

impl vstd::std_specs::cmp::PartialEqSpecImpl for UnvalidatedUserName {
    open spec fn obeys_eq_spec() -> bool {
        true
    }

    open spec fn eq_spec(&self, other: &Self) -> bool {
        self.0@ == other.0@
    }
}

/// A validated display name: between three and sixteen characters.
#[derive(Debug)]
pub struct UserName(String);

impl Clone for UserName {
    fn clone(&self) -> (r: Self)
        ensures
            r@ == self@,
    {
        UserName(self.0.clone())
    }
}

impl View for UserName {
    type V = Seq<char>;

    closed spec fn view(&self) -> Seq<char> {
        self.0@
    }
}

impl PartialEq for UserName {
    fn eq(&self, other: &Self) -> (r: bool) {
        self.0 == other.0
    }
}

impl vstd::std_specs::cmp::PartialEqSpecImpl for UserName {
    open spec fn obeys_eq_spec() -> bool {
        true
    }

    open spec fn eq_spec(&self, other: &Self) -> bool {
        self@ == other@
    }
}

impl UserName {
    /// Validates a raw display name, failing with the first violated bound.
    pub fn new(name: &str) -> (r: Result<UserName, ValidationError>)
        ensures
            name@.len() < MIN_USER_NAME_LENGTH ==> (r matches Err(e) && e.0@
                == "Username must be at least 3 characters long"@),
            name@.len() > MAX_USER_NAME_LENGTH ==> (r matches Err(e) && e.0@
                == "Username must be at most 16 characters long"@),
            user_name_valid(name@) ==> (r matches Ok(u) && u@ == name@),
    {
        let n = name.unicode_len();
        if n < MIN_USER_NAME_LENGTH {
            Err(ValidationError(String::from_str("Username must be at least 3 characters long")))
        } else if n > MAX_USER_NAME_LENGTH {
            Err(ValidationError(String::from_str("Username must be at most 16 characters long")))
        } else {
            Ok(UserName(name.to_owned()))
        }
    }

    /// The underlying text, unchanged from what was validated.
    pub fn value(&self) -> (r: &str)
        ensures
            r@ == self@,
    {
        self.0.as_str()
    }
}

/// Raw caller input for an NG word; nothing is known about it yet.
#[derive(Debug, Clone)]
pub struct UnvalidatedNgWord(pub String);

impl View for UnvalidatedNgWord {
    type V = Seq<char>;

    open spec fn view(&self) -> Seq<char> {
        self.0@
    }
}

impl PartialEq for UnvalidatedNgWord {
    fn eq(&self, other: &Self) -> (r: bool) {
        self.0 == other.0
    }
}

impl vstd::std_specs::cmp::PartialEqSpecImpl for UnvalidatedNgWord {
    open spec fn obeys_eq_spec() -> bool {
        true
    }

    open spec fn eq_spec(&self, other: &Self) -> bool {
        self.0@ == other.0@
    }
}

/// A validated NG word: between three and ten characters.
#[derive(Debug)]
pub struct NgWord(String);

impl Clone for NgWord {
    fn clone(&self) -> (r: Self)
        ensures
            r@ == self@,
    {
        NgWord(self.0.clone())
    }
}

impl View for NgWord {
    type V = Seq<char>;

    closed spec fn view(&self) -> Seq<char> {
        self.0@
    }
}

impl PartialEq for NgWord {
    fn eq(&self, other: &Self) -> (r: bool) {
        self.0 == other.0
    }
}

impl vstd::std_specs::cmp::PartialEqSpecImpl for NgWord {
    open spec fn obeys_eq_spec() -> bool {
        true
    }

    open spec fn eq_spec(&self, other: &Self) -> bool {
        self@ == other@
    }
}

impl NgWord {
    /// Validates a raw NG word, failing with the first violated bound.
    pub fn new(ng_word: &str) -> (r: Result<NgWord, ValidationError>)
        ensures
            ng_word@.len() < MIN_NG_WORD_LENGTH ==> (r matches Err(e) && e.0@
                == "NgWord must be at least 3 characters long"@),
            ng_word@.len() > MAX_NG_WORD_LENGTH ==> (r matches Err(e) && e.0@
                == "NgWord must be at most 10 characters long"@),
            ng_word_valid(ng_word@) ==> (r matches Ok(w) && w@ == ng_word@),
    {
        let n = ng_word.unicode_len();
        if n < MIN_NG_WORD_LENGTH {
            Err(ValidationError(String::from_str("NgWord must be at least 3 characters long")))
        } else if n > MAX_NG_WORD_LENGTH {
            Err(ValidationError(String::from_str("NgWord must be at most 10 characters long")))
        } else {
            Ok(NgWord(ng_word.to_owned()))
        }
    }

    /// The underlying text, unchanged from what was validated.
    pub fn value(&self) -> (r: &str)
        ensures
            r@ == self@,
    {
        self.0.as_str()
    }
}

} // verus!

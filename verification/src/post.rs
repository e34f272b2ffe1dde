//! The post use case: validated posts, the post error taxonomy, the
//! repository port it consumes, and the domain service that validates,
//! moderates and persists a post.

use crate::err::{ServiceError, ValidationError};
use crate::model::{
    user_name_valid, NgWord, UnvalidatedUserName, UserName, MAX_USER_NAME_LENGTH,
    MIN_USER_NAME_LENGTH,
};
use crate::text::{lemma_moderate_len, mask_all, mask_word, moderate};
use vstd::prelude::*;
use vstd::string::*;

verus! {

/// Raw caller input for a post; consumed once by the domain service.
#[derive(Debug, Clone)]
pub struct UnvalidatedPost {
    pub user_name: UnvalidatedUserName,
    pub content: String,
}

impl PartialEq for UnvalidatedPost {
    fn eq(&self, other: &Self) -> (r: bool) {
        self.user_name == other.user_name && self.content == other.content
    }
}

impl vstd::std_specs::cmp::PartialEqSpecImpl for UnvalidatedPost {
    open spec fn obeys_eq_spec() -> bool {
        true
    }

    open spec fn eq_spec(&self, other: &Self) -> bool {
        self.user_name@ == other.user_name@ && self.content@ == other.content@
    }
}

/// The mathematical content of a [`Post`]: who posted what.
pub struct PostView {
    pub user_name: Seq<char>,
    pub content: Seq<char>,
}

/// A validated post: a valid user name together with nonempty content.
#[derive(Debug, Clone)]
pub struct Post {
    user_name: UserName,
    content: String,
}

impl View for Post {
    type V = PostView;

    closed spec fn view(&self) -> PostView {
        PostView { user_name: self.user_name@, content: self.content@ }
    }
}

impl PartialEq for Post {
    fn eq(&self, other: &Self) -> (r: bool) {
        self.user_name == other.user_name && self.content == other.content
    }
}

impl vstd::std_specs::cmp::PartialEqSpecImpl for Post {
    open spec fn obeys_eq_spec() -> bool {
        true
    }

    open spec fn eq_spec(&self, other: &Self) -> bool {
        self@.user_name == other@.user_name && self@.content == other@.content
    }
}

impl Post {
    /// Validates name and content together; the first failing check wins.
    pub fn new(user_name: String, content: String) -> (r: Result<Post, ValidationError>)
        ensures
            user_name@.len() < MIN_USER_NAME_LENGTH ==> (r matches Err(e) && e.0@
                == "Username must be at least 3 characters long"@),
            user_name@.len() > MAX_USER_NAME_LENGTH ==> (r matches Err(e) && e.0@
                == "Username must be at most 16 characters long"@),
            user_name_valid(user_name@) && content@.len() == 0 ==> (r matches Err(e) && e.0@
                == "Content must not be empty"@),
            user_name_valid(user_name@) && content@.len() > 0 ==> (r matches Ok(p) && p@.user_name
                == user_name@ && p@.content == content@),
    {
        let user_name = match UserName::new(user_name.as_str()) {
            Ok(u) => u,
            Err(e) => { return Err(e) },
        };
        if content.as_str().unicode_len() == 0 {
            Err(ValidationError(String::from_str("Content must not be empty")))
        } else {
            Ok(Post { user_name, content })
        }
    }

    /// The author of the post.
    pub fn user_name(&self) -> (r: &UserName)
        ensures
            r@ == self@.user_name,
    {
        &self.user_name
    }

    /// The moderated text of the post.
    pub fn content(&self) -> (r: &str)
        ensures
            r@ == self@.content,
    {
        self.content.as_str()
    }
}

/// Outcome classifier of the post use case.
#[derive(Debug, Clone)]
pub enum PostError {
    ValidationError(ValidationError),
    ServiceError(ServiceError),
}

impl PartialEq for PostError {
    fn eq(&self, other: &Self) -> (r: bool) {
        match (self, other) {
            (PostError::ValidationError(a), PostError::ValidationError(b)) => a == b,
            (PostError::ServiceError(a), PostError::ServiceError(b)) => a == b,
            _ => false,
        }
    }
}

impl vstd::std_specs::cmp::PartialEqSpecImpl for PostError {
    open spec fn obeys_eq_spec() -> bool {
        true
    }

    open spec fn eq_spec(&self, other: &Self) -> bool {
        match (self, other) {
            (PostError::ValidationError(a), PostError::ValidationError(b)) => a.0@ == b.0@,
            (PostError::ServiceError(a), PostError::ServiceError(b)) => a.0@ == b.0@,
            _ => false,
        }
    }
}

impl From<ValidationError> for PostError {
    fn from(e: ValidationError) -> (r: Self) {
        PostError::ValidationError(e)
    }
}

impl vstd::std_specs::convert::FromSpecImpl<ValidationError> for PostError {
    open spec fn obeys_from_spec() -> bool {
        true
    }

    open spec fn from_spec(e: ValidationError) -> Self {
        PostError::ValidationError(e)
    }
}

impl From<ServiceError> for PostError {
    fn from(e: ServiceError) -> (r: Self) {
        PostError::ServiceError(e)
    }
}

impl vstd::std_specs::convert::FromSpecImpl<ServiceError> for PostError {
    open spec fn obeys_from_spec() -> bool {
        true
    }

    open spec fn from_spec(e: ServiceError) -> Self {
        PostError::ServiceError(e)
    }
}

/// Repository port of the post use case. Its abstract state is what the
/// store holds; the methods relate their results to that state, and any of
/// them may fail with a [`ServiceError`] instead.
pub trait PostRepository: Sized {
    /// The names of the registered users. Impls redefine this; left alone
    /// it stays unspecified.
    open spec fn spec_user_names(&self) -> Seq<Seq<char>> {
        vstd::pervasive::arbitrary()
    }

    /// The NG-word dictionary, in the order the store returns it. Impls
    /// redefine this; left alone it stays unspecified.
    open spec fn spec_ng_words(&self) -> Seq<Seq<char>> {
        vstd::pervasive::arbitrary()
    }

    /// The stored posts, in insertion order. Impls redefine this; left
    /// alone it stays unspecified.
    open spec fn spec_posts(&self) -> Seq<PostView> {
        vstd::pervasive::arbitrary()
    }

    /// Does a user of exactly this name exist?
    fn user_exists(&self, user: &UserName) -> (r: Result<bool, ServiceError>)
        ensures
            r matches Ok(b) ==> b == self.spec_user_names().contains(user@),
    ;

    /// The whole NG-word dictionary, unpaginated, in store order.
    fn find_all_ng_word(&self) -> (r: Result<Vec<NgWord>, ServiceError>)
        ensures
            r matches Ok(ws) ==> ws@.map_values(|w: NgWord| w@) == self.spec_ng_words(),
    ;

    /// Appends a post to the store; a failed insert leaves the store as it
    /// was.
    fn create_post(&mut self, post: &Post) -> (r: Result<(), ServiceError>)
        ensures
            r is Ok ==> final(self).spec_posts() == old(self).spec_posts().push(post@),
            r is Err ==> final(self).spec_posts() == old(self).spec_posts(),
            final(self).spec_user_names() == old(self).spec_user_names(),
            final(self).spec_ng_words() == old(self).spec_ng_words(),
    ;
}

/// The post domain service: one business transaction of validating,
/// moderating and persisting a post.
pub struct DomainServiceImpl<R: PostRepository> {
    post_repository: R,
}

impl<R: PostRepository> DomainServiceImpl<R> {
    /// The repository this service works against.
    pub closed spec fn repo(&self) -> R {
        self.post_repository
    }

    pub fn new(post_repository: R) -> (r: Self)
        ensures
            r.repo() == post_repository,
    {
        DomainServiceImpl { post_repository }
    }

    /// Gives the repository back, consuming the service.
    pub fn into_repository(self) -> (r: R)
        ensures
            r == self.repo(),
    {
        self.post_repository
    }

    /// Validates the author, checks existence, masks every NG word of the
    /// dictionary out of the content, and persists the moderated post.
    pub fn post(&mut self, post: UnvalidatedPost) -> (r: Result<(), PostError>)
        ensures
            // a bad name is rejected before any repository interaction
            post.user_name@.len() < MIN_USER_NAME_LENGTH ==> (r matches Err(
                PostError::ValidationError(e),
            ) && e.0@ == "Username must be at least 3 characters long"@ && final(self).repo()
                == old(self).repo()),
            post.user_name@.len() > MAX_USER_NAME_LENGTH ==> (r matches Err(
                PostError::ValidationError(e),
            ) && e.0@ == "Username must be at most 16 characters long"@ && final(self).repo()
                == old(self).repo()),
            // an unknown author is rejected (or the lookup itself failed),
            // and the store is left untouched
            user_name_valid(post.user_name@) && !old(self).repo().spec_user_names().contains(
                post.user_name@,
            ) ==> (final(self).repo() == old(self).repo() && (r matches Err(
                PostError::ServiceError(_),
            ) || (r matches Err(PostError::ValidationError(e)) && e.0@ == "User does not exist"@))),
            r matches Err(PostError::ValidationError(e)) ==> (e.0@ == "User does not exist"@ ==> (
            user_name_valid(post.user_name@) && !old(self).repo().spec_user_names().contains(
                post.user_name@,
            ))),
            // empty content is the only other validation failure
            r matches Err(PostError::ValidationError(e)) ==> (e.0@ == "Content must not be empty"@
                ==> (user_name_valid(post.user_name@) && post.content@.len() == 0)),
            // success: exactly the moderated post was appended to the store
            r is Ok ==> (user_name_valid(post.user_name@)
                && old(self).repo().spec_user_names().contains(post.user_name@)
                && post.content@.len() > 0
                && final(self).repo().spec_posts() == old(self).repo().spec_posts().push(
                (PostView {
                    user_name: post.user_name@,
                    content: moderate(post.content@, old(self).repo().spec_ng_words()),
                }),
            )),
            // posting changes nothing else in the store, and a failure
            // writes no post at all
            final(self).repo().spec_user_names() == old(self).repo().spec_user_names(),
            final(self).repo().spec_ng_words() == old(self).repo().spec_ng_words(),
            r is Err ==> final(self).repo().spec_posts() == old(self).repo().spec_posts(),
            // a validation failure happens before the write: no partial state
            r matches Err(PostError::ValidationError(_)) ==> final(self).repo() == old(self).repo(),
            // each length reason names its cause
            r matches Err(PostError::ValidationError(e)) ==> (e.0@
                == "Username must be at least 3 characters long"@ ==> post.user_name@.len()
                < MIN_USER_NAME_LENGTH),
            r matches Err(PostError::ValidationError(e)) ==> (e.0@
                == "Username must be at most 16 characters long"@ ==> post.user_name@.len()
                > MAX_USER_NAME_LENGTH),
            // the error taxonomy is closed: every validation reason is one of
            // the four above
            r matches Err(PostError::ValidationError(e)) ==> (e.0@
                == "Username must be at least 3 characters long"@ || e.0@
                == "Username must be at most 16 characters long"@ || e.0@
                == "User does not exist"@ || e.0@ == "Content must not be empty"@),
    {
        proof {
            reveal_strlit("Username must be at least 3 characters long");
            reveal_strlit("Username must be at most 16 characters long");
            reveal_strlit("User does not exist");
            reveal_strlit("Content must not be empty");
            // the validation reasons needed below have pairwise distinct lengths
            assert("Username must be at least 3 characters long"@.len() == 43);
            assert("Username must be at most 16 characters long"@.len() == 43);
            assert("User does not exist"@.len() == 19);
            assert("Content must not be empty"@.len() == 25);
            assert("Username must be at least 3 characters long"@[20]
                != "Username must be at most 16 characters long"@[20]);
            assert("Username must be at least 3 characters long"@
                != "Username must be at most 16 characters long"@);
            assert("Username must be at least 3 characters long"@ != "User does not exist"@);
            assert("Username must be at least 3 characters long"@ != "Content must not be empty"@);
            assert("Username must be at most 16 characters long"@ != "User does not exist"@);
            assert("Username must be at most 16 characters long"@ != "Content must not be empty"@);
            assert("User does not exist"@ != "Content must not be empty"@);
        }
        let user_name = match UserName::new(post.user_name.0.as_str()) {
            Ok(u) => u,
            Err(e) => { return Err(PostError::ValidationError(e)) },
        };
        let user_exists = match self.post_repository.user_exists(&user_name) {
            Ok(b) => b,
            Err(e) => { return Err(PostError::ServiceError(e)) },
        };
        if !user_exists {
            return Err(
                PostError::ValidationError(ValidationError(String::from_str("User does not exist"))),
            );
        }
        let ng_words = match self.post_repository.find_all_ng_word() {
            Ok(ws) => ws,
            Err(e) => { return Err(PostError::ServiceError(e)) },
        };

        // mask every NG word, each step working on the previous step's output
        let ghost dict = ng_words@.map_values(|w: NgWord| w@);
        let mut content = post.content;
        let ghost c0 = content@;
        proof {
            assert(dict.skip(0) =~= dict);
        }
        let mut k: usize = 0;
        while k < ng_words.len()
            invariant
                k <= ng_words.len(),
                dict == ng_words@.map_values(|w: NgWord| w@),
                moderate(c0, dict) == moderate(content@, dict.skip(k as int)),
            decreases ng_words.len() - k,
        {
            let masked = mask_word(content.as_str(), ng_words[k].value());
            proof {
                assert(dict.skip(k as int)[0] == dict[k as int]);
                assert(dict.skip(k as int).drop_first() =~= dict.skip(k as int + 1));
                assert(moderate(content@, dict.skip(k as int)) == moderate(
                    mask_all(content@, dict[k as int]),
                    dict.skip(k as int + 1),
                ));
            }
            content = masked;
            k += 1;
        }
        proof {
            assert(dict.skip(ng_words@.len() as int) =~= Seq::<Seq<char>>::empty());
            assert(moderate(c0, dict) == content@);
            lemma_moderate_len(c0, dict);
        }

        let validated = match Post::new(String::from_str(user_name.value()), content) {
            Ok(p) => p,
            Err(e) => { return Err(PostError::ValidationError(e)) },
        };
        match self.post_repository.create_post(&validated) {
            Ok(_) => Ok(()),
            Err(e) => Err(PostError::ServiceError(e)),
        }
    }
}

} // verus!

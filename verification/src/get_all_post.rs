//! The get-all-posts use case: the denormalized feed read model and the
//! pass-through service that lists it.

use crate::err::ServiceError;
use vstd::prelude::*;

verus! {

/// The display name a feed entry was posted under; empty when the author
/// row is missing.
#[derive(Debug, Clone)]
pub struct PostedUserName(pub String);

impl PartialEq for PostedUserName {
    fn eq(&self, other: &Self) -> (r: bool) {
        self.0 == other.0
    }
}

impl vstd::std_specs::cmp::PartialEqSpecImpl for PostedUserName {
    open spec fn obeys_eq_spec() -> bool {
        true
    }

    open spec fn eq_spec(&self, other: &Self) -> bool {
        self.0@ == other.0@
    }
}

/// A civil timestamp, second precision, as plain fields.
#[derive(Debug, Clone, Copy, PartialEq, Eq, Structural)]
pub struct PostedDatetime {
    pub year: u16,
    pub month: u8,
    pub day: u8,
    pub hour: u8,
    pub minute: u8,
    pub second: u8,
}

/// The text of a feed entry.
#[derive(Debug, Clone)]
pub struct Content(pub String);

impl PartialEq for Content {
    fn eq(&self, other: &Self) -> (r: bool) {
        self.0 == other.0
    }
}

impl vstd::std_specs::cmp::PartialEqSpecImpl for Content {
    open spec fn obeys_eq_spec() -> bool {
        true
    }

    open spec fn eq_spec(&self, other: &Self) -> bool {
        self.0@ == other.0@
    }
}

/// The mathematical content of a feed entry.
pub struct FeedPostView {
    pub posted_user_name: Seq<char>,
    pub posted_datetime: PostedDatetime,
    pub content: Seq<char>,
}

/// A post as returned to readers: author name, timestamp, text.
#[derive(Debug, Clone)]
pub struct Post {
    pub posted_user_name: PostedUserName,
    pub posted_datetime: PostedDatetime,
    pub content: Content,
}

impl View for Post {
    type V = FeedPostView;

    open spec fn view(&self) -> FeedPostView {
        FeedPostView {
            posted_user_name: self.posted_user_name.0@,
            posted_datetime: self.posted_datetime,
            content: self.content.0@,
        }
    }
}

impl Post {
    /// Builds a feed entry from one joined row; a missing author name
    /// defaults to the empty string rather than failing the row.
    pub fn from_row(content: String, author: Option<String>, posted_datetime: PostedDatetime) -> (r:
        Post)
        ensures
            r@.content == content@,
            r@.posted_datetime == posted_datetime,
            author matches Some(name) ==> r@.posted_user_name == name@,
            author is None ==> r@.posted_user_name == Seq::<char>::empty(),
    {
        let posted_user_name = match author {
            Some(name) => name,
            None => String::new(),
        };
        Post {
            posted_user_name: PostedUserName(posted_user_name),
            posted_datetime,
            content: Content(content),
        }
    }
}

impl PartialEq for Post {
    fn eq(&self, other: &Self) -> (r: bool) {
        self.posted_user_name == other.posted_user_name && self.posted_datetime
            == other.posted_datetime && self.content == other.content
    }
}

impl vstd::std_specs::cmp::PartialEqSpecImpl for Post {
    open spec fn obeys_eq_spec() -> bool {
        true
    }

    open spec fn eq_spec(&self, other: &Self) -> bool {
        self@.posted_user_name == other@.posted_user_name && self@.posted_datetime
            == other@.posted_datetime && self@.content == other@.content
    }
}

/// Repository port of the get-all-posts use case.
pub trait GetAllPostRepository: Sized {
    /// The feed: every stored post joined with its author's name, in
    /// insertion order. Impls redefine this; left alone it stays
    /// unspecified.
    open spec fn spec_feed(&self) -> Seq<FeedPostView> {
        vstd::pervasive::arbitrary()
    }

    /// Lists the whole feed.
    fn get_all_post(&self) -> (r: Result<Vec<Post>, ServiceError>)
        ensures
            r matches Ok(ps) ==> ps@.map_values(|p: Post| p@) == self.spec_feed(),
    ;
}

/// The get-all-posts domain service: a single repository pass-through.
pub struct DomainServiceImpl<R: GetAllPostRepository> {
    get_all_post_repository: R,
}

impl<R: GetAllPostRepository> DomainServiceImpl<R> {
    /// The repository this service works against.
    pub closed spec fn repo(&self) -> R {
        self.get_all_post_repository
    }

    pub fn new(get_all_post_repository: R) -> (r: Self)
        ensures
            r.repo() == get_all_post_repository,
    {
        DomainServiceImpl { get_all_post_repository }
    }

    /// Gives the repository back, consuming the service.
    pub fn into_repository(self) -> (r: R)
        ensures
            r == self.repo(),
    {
        self.get_all_post_repository
    }

    /// Returns the full feed, or the repository's failure unchanged; an
    /// empty store yields an empty list, never an error.
    pub fn get_all_post(&self) -> (r: Result<Vec<Post>, ServiceError>)
        ensures
            r matches Ok(ps) ==> ps@.map_values(|p: Post| p@) == self.repo().spec_feed(),
    {
        self.get_all_post_repository.get_all_post()
    }
}

} // verus!

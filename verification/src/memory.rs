//! An in-memory store implementing every repository port, fully verified.
//!
//! It is the adapter the test suite runs against and the reference model of
//! the production store: reads never fail, and the only failure it reports
//! is a uniqueness violation when a user name is registered twice.

use crate::err::{RegisterUserNameError, ServiceError};
use crate::get_all_post::{
    Content, FeedPostView, GetAllPostRepository, Post, PostedDatetime, PostedUserName,
};
use crate::login::{LoginRepository, UncheckedUserName};
use crate::model::{NgWord, UserName};
use crate::post::{PostRepository, PostView};
use crate::register_ng_word::RegisterNgWordRepository;
use crate::register_user_name::RegisterUserNameRepository;
use crate::repository::{CheckUserNameNgWordRepository, CreateUserNameRepository};
use crate::text::{any_word_in, contains_seq, contains_str, str_eq};
use vstd::prelude::*;
use vstd::string::*;

verus! {

/// One stored NG word together with the user who registered it.
#[derive(Debug)]
struct NgWordRecord {
    word: NgWord,
    created_user_id: i32,
}

/// The in-memory store behind every repository port.
#[derive(Debug)]
pub struct MemoryRepository {
    user_names: Vec<String>,
    ng_words: Vec<NgWordRecord>,
    posts: Vec<Post>,
    clock: PostedDatetime,
}

impl MemoryRepository {
    /// The registered user names, in registration order.
    pub closed spec fn names(&self) -> Seq<Seq<char>> {
        self.user_names@.map_values(|s: String| s@)
    }

    /// The NG words, in registration order.
    pub closed spec fn words(&self) -> Seq<Seq<char>> {
        self.ng_words@.map_values(|w: NgWordRecord| w.word@)
    }

    /// The NG words with their registering users, in registration order.
    pub closed spec fn word_records(&self) -> Seq<(Seq<char>, i32)> {
        self.ng_words@.map_values(|w: NgWordRecord| (w.word@, w.created_user_id))
    }

    /// The feed of stored posts, in insertion order.
    pub closed spec fn feed(&self) -> Seq<FeedPostView> {
        self.posts@.map_values(|p: Post| p@)
    }

    /// The clock value new posts are stamped with.
    pub closed spec fn spec_clock(&self) -> PostedDatetime {
        self.clock
    }

    /// An empty store whose clock reads all zeroes.
    pub fn new() -> (r: MemoryRepository)
        ensures
            r.names() == Seq::<Seq<char>>::empty(),
            r.words() == Seq::<Seq<char>>::empty(),
            r.word_records() == Seq::<(Seq<char>, i32)>::empty(),
            r.feed() == Seq::<FeedPostView>::empty(),
            r.spec_clock() == (PostedDatetime {
                year: 0,
                month: 1,
                day: 1,
                hour: 0,
                minute: 0,
                second: 0,
            }),
    {
        let r = MemoryRepository {
            user_names: Vec::new(),
            ng_words: Vec::new(),
            posts: Vec::new(),
            clock: PostedDatetime { year: 0, month: 1, day: 1, hour: 0, minute: 0, second: 0 },
        };
        proof {
            assert(r.names() =~= Seq::<Seq<char>>::empty());
            assert(r.words() =~= Seq::<Seq<char>>::empty());
            assert(r.word_records() =~= Seq::<(Seq<char>, i32)>::empty());
            assert(r.feed() =~= Seq::<FeedPostView>::empty());
        }
        r
    }

    /// Sets the clock that stamps the next posts.
    pub fn set_clock(&mut self, clock: PostedDatetime)
        ensures
            final(self).spec_clock() == clock,
            final(self).names() == old(self).names(),
            final(self).words() == old(self).words(),
            final(self).word_records() == old(self).word_records(),
            final(self).feed() == old(self).feed(),
    {
        self.clock = clock;
    }

    /// Seeds a user name directly, as a row inserted behind the services'
    /// backs.
    pub fn add_user_name(&mut self, name: &str)
        ensures
            final(self).names() == old(self).names().push(name@),
            final(self).words() == old(self).words(),
            final(self).word_records() == old(self).word_records(),
            final(self).feed() == old(self).feed(),
            final(self).spec_clock() == old(self).spec_clock(),
    {
        let ghost before = self.user_names@;
        self.user_names.push(name.to_owned());
        proof {
            assert(self.names() =~= before.map_values(|s: String| s@).push(name@));
        }
    }

    /// Seeds an NG word directly.
    pub fn add_ng_word(&mut self, word: &NgWord, user_id: i32)
        ensures
            final(self).words() == old(self).words().push(word@),
            final(self).word_records() == old(self).word_records().push((word@, user_id)),
            final(self).names() == old(self).names(),
            final(self).feed() == old(self).feed(),
            final(self).spec_clock() == old(self).spec_clock(),
    {
        let ghost before = self.ng_words@;
        self.ng_words.push(NgWordRecord { word: word.clone(), created_user_id: user_id });
        proof {
            assert(self.words() =~= before.map_values(|w: NgWordRecord| w.word@).push(word@));
            assert(self.word_records() =~= before.map_values(
                |w: NgWordRecord| (w.word@, w.created_user_id),
            ).push((word@, user_id)));
        }
    }

    /// How many user names the store holds.
    pub fn user_name_count(&self) -> (n: usize)
        ensures
            n == self.names().len(),
    {
        self.user_names.len()
    }

    /// How many NG words the store holds.
    pub fn ng_word_count(&self) -> (n: usize)
        ensures
            n == self.words().len(),
    {
        self.ng_words.len()
    }

    /// How many posts the store holds.
    pub fn post_count(&self) -> (n: usize)
        ensures
            n == self.feed().len(),
    {
        self.posts.len()
    }

    /// Is this exact name stored? This total lookup backs both
    /// `user_exists` ports: in this store an existence check cannot fail.
    pub fn contains_name(&self, name: &str) -> (b: bool)
        ensures
            b == self.names().contains(name@),
    {
        let mut i: usize = 0;
        while i < self.user_names.len()
            invariant
                i <= self.user_names.len(),
                forall|k: int| 0 <= k < i ==> self.names()[k] != name@,
            decreases self.user_names.len() - i,
        {
            if str_eq(self.user_names[i].as_str(), name) {
                assert(self.names()[i as int] == name@);
                return true;
            }
            i += 1;
        }
        assert(!self.names().contains(name@)) by {
            if self.names().contains(name@) {
                let k = choose|k: int| 0 <= k < self.names().len() && self.names()[k] == name@;
                assert(self.names()[k] != name@);
            }
        }
        false
    }

    /// Does any stored NG word occur inside `name`? This total scan backs
    /// both `find_ng_word` ports: in this store a containment check cannot
    /// fail.
    pub fn scan_ng_words(&self, name: &str) -> (b: bool)
        ensures
            b == any_word_in(name@, self.words()),
    {
        let mut i: usize = 0;
        while i < self.ng_words.len()
            invariant
                i <= self.ng_words.len(),
                forall|k: int| 0 <= k < i ==> !contains_seq(name@, #[trigger] self.words()[k]),
            decreases self.ng_words.len() - i,
        {
            if contains_str(name, self.ng_words[i].word.value()) {
                assert(contains_seq(name@, self.words()[i as int]));
                return true;
            }
            i += 1;
        }
        assert(!any_word_in(name@, self.words()));
        false
    }

    /// Appends the name unless it is already stored; a duplicate is the
    /// uniqueness violation the store reports, and it reads "Already
    /// exists". This insert backs both `create_user_name` ports.
    pub fn insert_user_name(&mut self, name: &str) -> (r: Result<(), ServiceError>)
        ensures
            r is Ok <==> !old(self).names().contains(name@),
            r is Ok ==> final(self).names() == old(self).names().push(name@),
            r is Err ==> final(self).names() == old(self).names(),
            r matches Err(e) ==> e.0@ == "Already exists"@,
            final(self).words() == old(self).words(),
            final(self).word_records() == old(self).word_records(),
            final(self).feed() == old(self).feed(),
            final(self).spec_clock() == old(self).spec_clock(),
    {
        if self.contains_name(name) {
            return Err(ServiceError(String::from_str("Already exists")));
        }
        let ghost before = self.user_names@;
        self.user_names.push(name.to_owned());
        proof {
            assert(self.names() =~= before.map_values(|s: String| s@).push(name@));
        }
        Ok(())
    }
}

// `user_exists`, `find_ng_word` and `create_user_name` each exist on two of
// the implemented ports, and Verus cannot yet attach extra `ensures` to an
// impl method whose name two implemented traits share. The guarantees those
// methods add over their ports — reads cannot fail, and a duplicate insert
// fails with "Already exists" leaving the store unchanged — are therefore
// stated on the public helpers above, which the method bodies only wrap.
impl LoginRepository for MemoryRepository {
    open spec fn spec_user_names(&self) -> Seq<Seq<char>> {
        self.names()
    }

    fn user_exists(&self, user: &UncheckedUserName) -> (r: Result<bool, ServiceError>) {
        Ok(self.contains_name(user.0.as_str()))
    }
}

impl PostRepository for MemoryRepository {
    open spec fn spec_user_names(&self) -> Seq<Seq<char>> {
        self.names()
    }

    open spec fn spec_ng_words(&self) -> Seq<Seq<char>> {
        self.words()
    }

    open spec fn spec_posts(&self) -> Seq<PostView> {
        self.feed().map_values(
            |f: FeedPostView| PostView { user_name: f.posted_user_name, content: f.content },
        )
    }

    fn user_exists(&self, user: &UserName) -> (r: Result<bool, ServiceError>) {
        Ok(self.contains_name(user.value()))
    }

    fn find_all_ng_word(&self) -> (r: Result<Vec<NgWord>, ServiceError>)
        ensures
            r is Ok,
    {
        let mut out: Vec<NgWord> = Vec::new();
        let mut i: usize = 0;
        while i < self.ng_words.len()
            invariant
                i <= self.ng_words.len(),
                out@.len() == i,
                forall|k: int| 0 <= k < i ==> out@[k]@ == self.words()[k],
            decreases self.ng_words.len() - i,
        {
            out.push(self.ng_words[i].word.clone());
            i += 1;
        }
        proof {
            assert(out@.map_values(|w: NgWord| w@) =~= self.words());
        }
        Ok(out)
    }

    fn create_post(&mut self, post: &crate::post::Post) -> (r: Result<(), ServiceError>)
        ensures
            r is Ok,
            final(self).feed() == old(self).feed().push(
                (FeedPostView {
                    posted_user_name: post@.user_name,
                    posted_datetime: old(self).spec_clock(),
                    content: post@.content,
                }),
            ),
            final(self).word_records() == old(self).word_records(),
            final(self).spec_clock() == old(self).spec_clock(),
    {
        let ghost before = self.posts@;
        let entry = Post {
            posted_user_name: PostedUserName(post.user_name().value().to_owned()),
            posted_datetime: self.clock,
            content: Content(post.content().to_owned()),
        };
        self.posts.push(entry);
        proof {
            assert(self.feed() =~= before.map_values(|p: Post| p@).push(
                (FeedPostView {
                    posted_user_name: post@.user_name,
                    posted_datetime: self.clock,
                    content: post@.content,
                }),
            ));
            assert(self.spec_posts() =~= old(self).spec_posts().push(post@));
        }
        Ok(())
    }
}

impl GetAllPostRepository for MemoryRepository {
    open spec fn spec_feed(&self) -> Seq<FeedPostView> {
        self.feed()
    }

    fn get_all_post(&self) -> (r: Result<Vec<Post>, ServiceError>)
        ensures
            r is Ok,
            r matches Ok(ps) ==> ps@.len() == self.feed().len(),
    {
        let mut out: Vec<Post> = Vec::new();
        let mut i: usize = 0;
        while i < self.posts.len()
            invariant
                i <= self.posts.len(),
                out@.len() == i,
                forall|k: int| 0 <= k < i ==> out@[k]@ == self.feed()[k],
            decreases self.posts.len() - i,
        {
            let entry = Post {
                posted_user_name: PostedUserName(self.posts[i].posted_user_name.0.clone()),
                posted_datetime: self.posts[i].posted_datetime,
                content: Content(self.posts[i].content.0.clone()),
            };
            out.push(entry);
            i += 1;
        }
        proof {
            assert(out@.map_values(|p: Post| p@) =~= self.feed());
        }
        Ok(out)
    }
}

impl RegisterUserNameRepository for MemoryRepository {
    open spec fn spec_user_names(&self) -> Seq<Seq<char>> {
        self.names()
    }

    open spec fn spec_ng_words(&self) -> Seq<Seq<char>> {
        self.words()
    }

    fn find_ng_word(&self, user_name: &UserName) -> (r: Result<bool, RegisterUserNameError>) {
        Ok(self.scan_ng_words(user_name.value()))
    }

    fn create_user_name(&mut self, user_name: &UserName) -> (r: Result<(), ServiceError>) {
        self.insert_user_name(user_name.value())
    }
}

impl CheckUserNameNgWordRepository for MemoryRepository {
    open spec fn spec_ng_words(&self) -> Seq<Seq<char>> {
        self.words()
    }

    fn find_ng_word(&self, user_name: UserName) -> (r: Result<bool, ServiceError>) {
        Ok(self.scan_ng_words(user_name.value()))
    }
}

impl CreateUserNameRepository for MemoryRepository {
    open spec fn spec_user_names(&self) -> Seq<Seq<char>> {
        self.names()
    }

    fn create_user_name(&mut self, user_name: UserName) -> (r: Result<(), ServiceError>) {
        self.insert_user_name(user_name.value())
    }
}

impl RegisterNgWordRepository for MemoryRepository {
    open spec fn spec_registered_words(&self) -> Seq<(Seq<char>, i32)> {
        self.word_records()
    }

    fn register_ng_word(&mut self, ng_word: &NgWord, user_id: i32) -> (r: Result<
        (),
        ServiceError,
    >)
        ensures
            r is Ok,
            final(self).names() == old(self).names(),
            final(self).feed() == old(self).feed(),
            final(self).spec_clock() == old(self).spec_clock(),
    {
        let ghost before = self.ng_words@;
        self.ng_words.push(NgWordRecord { word: ng_word.clone(), created_user_id: user_id });
        proof {
            assert(self.word_records() =~= before.map_values(
                |w: NgWordRecord| (w.word@, w.created_user_id),
            ).push((ng_word@, user_id)));
        }
        Ok(())
    }
}

} // verus!

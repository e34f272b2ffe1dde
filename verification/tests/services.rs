use bbs_core::err::{ServiceError, ValidationError};
use bbs_core::get_all_post::{GetAllPostRepository, PostedDatetime};
use bbs_core::interface::get_all_post::PostDto;
use bbs_core::login::{LoginError, LoginRepository, UncheckedUserName};
use bbs_core::memory::MemoryRepository;
use bbs_core::model::{NgWord, UnvalidatedUserName, UserName};
use bbs_core::post::{PostError, PostRepository, UnvalidatedPost};
use bbs_core::register_ng_word::RegisterNgWordError;
use std::cell::Cell;

struct StubPostRepository {
    user_exists_result: Result<bool, ServiceError>,
    find_all_result: Result<Vec<NgWord>, ServiceError>,
    create_result: Result<(), ServiceError>,
    user_exists_calls: Cell<u32>,
    find_all_calls: Cell<u32>,
    create_calls: u32,
}

impl StubPostRepository {
    fn new(
        user_exists_result: Result<bool, ServiceError>,
        find_all_result: Result<Vec<NgWord>, ServiceError>,
        create_result: Result<(), ServiceError>,
    ) -> Self {
        StubPostRepository {
            user_exists_result,
            find_all_result,
            create_result,
            user_exists_calls: Cell::new(0),
            find_all_calls: Cell::new(0),
            create_calls: 0,
        }
    }
}

impl PostRepository for StubPostRepository {
    fn user_exists(&self, _user: &UserName) -> Result<bool, ServiceError> {
        self.user_exists_calls.set(self.user_exists_calls.get() + 1);
        self.user_exists_result.clone()
    }

    fn find_all_ng_word(&self) -> Result<Vec<NgWord>, ServiceError> {
        self.find_all_calls.set(self.find_all_calls.get() + 1);
        self.find_all_result.clone()
    }

    fn create_post(&mut self, _post: &bbs_core::post::Post) -> Result<(), ServiceError> {
        self.create_calls += 1;
        self.create_result.clone()
    }
}

struct FailingLoginRepository;

impl LoginRepository for FailingLoginRepository {
    fn user_exists(&self, _user: &UncheckedUserName) -> Result<bool, ServiceError> {
        Err(ServiceError("error".to_string()))
    }
}

struct FailingRegisterNgWordRepository;

impl bbs_core::register_ng_word::RegisterNgWordRepository for FailingRegisterNgWordRepository {
    fn register_ng_word(&mut self, _ng_word: &NgWord, _user_id: i32) -> Result<(), ServiceError> {
        Err(ServiceError("Database error".to_string()))
    }
}

fn unvalidated_post(user_name: &str, content: &str) -> UnvalidatedPost {
    UnvalidatedPost {
        user_name: UnvalidatedUserName(user_name.to_string()),
        content: content.to_string(),
    }
}

#[test]
fn test_post_persists_content() {
    let mut repository = MemoryRepository::new();
    repository.add_user_name("user_name");
    let mut service = bbs_core::post::DomainServiceImpl::new(repository);

    let result = service.post(unvalidated_post("user_name", "content"));

    assert_eq!(result, Ok(()));
    let repository = service.into_repository();
    let feed = repository.get_all_post().unwrap();
    assert_eq!(feed.len(), 1);
    assert_eq!(feed[0].posted_user_name.0, "user_name");
    assert_eq!(feed[0].content.0, "content");
}

#[test]
fn test_post_invalid_user_name() {
    let repository = MemoryRepository::new();
    let mut service = bbs_core::post::DomainServiceImpl::new(repository);

    let result = service.post(unvalidated_post("un", "content"));

    assert_eq!(
        result,
        Err(PostError::from(ValidationError(
            "Username must be at least 3 characters long".to_string()
        )))
    );
}

#[test]
fn test_post_user_not_exists() {
    let repository = MemoryRepository::new();
    let mut service = bbs_core::post::DomainServiceImpl::new(repository);

    let result = service.post(unvalidated_post("user_name", "content"));

    assert_eq!(result, Err(PostError::from(ValidationError("User does not exist".to_string()))));
}

#[test]
fn test_post_unknown_user_skips_dictionary() {
    let repository = StubPostRepository::new(Ok(false), Ok(vec![]), Ok(()));
    let mut service = bbs_core::post::DomainServiceImpl::new(repository);

    let result = service.post(unvalidated_post("user_name", "content"));

    assert_eq!(result, Err(PostError::from(ValidationError("User does not exist".to_string()))));
    let repository = service.into_repository();
    assert_eq!(repository.user_exists_calls.get(), 1);
    assert_eq!(repository.find_all_calls.get(), 0);
    assert_eq!(repository.create_calls, 0);
}

#[test]
fn test_post_empty_content() {
    let mut repository = MemoryRepository::new();
    repository.add_user_name("user_name");
    let mut service = bbs_core::post::DomainServiceImpl::new(repository);

    let result = service.post(unvalidated_post("user_name", ""));

    assert_eq!(result, Err(PostError::from(ValidationError("Content must not be empty".to_string()))));
    let repository = service.into_repository();
    assert_eq!(repository.post_count(), 0);
}

#[test]
fn test_post_user_check_service_error() {
    let repository = StubPostRepository::new(
        Err(ServiceError("ServiceError".to_string())),
        Ok(vec![]),
        Ok(()),
    );
    let mut service = bbs_core::post::DomainServiceImpl::new(repository);

    let result = service.post(unvalidated_post("user_name", "content"));

    assert_eq!(result, Err(PostError::from(ServiceError("ServiceError".to_string()))));
}

#[test]
fn test_post_dictionary_fetch_service_error() {
    let repository = StubPostRepository::new(
        Ok(true),
        Err(ServiceError("DomainServiceImpl error".to_string())),
        Ok(()),
    );
    let mut service = bbs_core::post::DomainServiceImpl::new(repository);

    let result = service.post(unvalidated_post("user_name", "content"));

    assert_eq!(
        result,
        Err(PostError::from(ServiceError("DomainServiceImpl error".to_string())))
    );
}

#[test]
fn test_post_create_service_error() {
    let repository = StubPostRepository::new(
        Ok(true),
        Ok(vec![]),
        Err(ServiceError("ServiceError".to_string())),
    );
    let mut service = bbs_core::post::DomainServiceImpl::new(repository);

    let result = service.post(unvalidated_post("user_name", "content"));

    assert_eq!(result, Err(PostError::from(ServiceError("ServiceError".to_string()))));
}

#[test]
fn test_login_found() {
    let mut repository = MemoryRepository::new();
    repository.add_user_name("test");
    let service = bbs_core::login::DomainServiceImpl::new(repository);

    let result = service.login(UncheckedUserName("test".to_string()));

    assert_eq!(result, Ok(()));
}

#[test]
fn test_login_user_not_found() {
    let repository = MemoryRepository::new();
    let service = bbs_core::login::DomainServiceImpl::new(repository);

    let result = service.login(UncheckedUserName("test".to_string()));

    assert_eq!(result, Err(LoginError::from(ValidationError("User not found".to_string()))));
}

#[test]
fn test_login_short_name_is_looked_up() {
    let mut repository = MemoryRepository::new();
    repository.add_user_name("ab");
    let service = bbs_core::login::DomainServiceImpl::new(repository);

    let result = service.login(UncheckedUserName("ab".to_string()));

    assert_eq!(result, Ok(()));
}

#[test]
fn test_login_repository_error() {
    let service = bbs_core::login::DomainServiceImpl::new(FailingLoginRepository);

    let result = service.login(UncheckedUserName("test".to_string()));

    assert_eq!(result, Err(LoginError::from(ServiceError("error".to_string()))));
}

#[test]
fn test_register_ng_word_success() {
    let repository = MemoryRepository::new();
    let mut service = bbs_core::register_ng_word::DomainServiceImpl::new(repository);

    let result = service.register_ng_word("test", 1);

    assert_eq!(result, Ok(()));
    let repository = service.into_repository();
    assert_eq!(repository.ng_word_count(), 1);
}

#[test]
fn test_register_ng_word_validation_error() {
    let repository = MemoryRepository::new();
    let mut service = bbs_core::register_ng_word::DomainServiceImpl::new(repository);

    let result = service.register_ng_word("te", 1);

    assert!(matches!(result, Err(RegisterNgWordError::ValidationError(_))));
    let repository = service.into_repository();
    assert_eq!(repository.ng_word_count(), 0);
}

#[test]
fn test_register_ng_word_too_long_validation_error() {
    let repository = MemoryRepository::new();
    let mut service = bbs_core::register_ng_word::DomainServiceImpl::new(repository);

    let result = service.register_ng_word("elevenchars", 1);

    assert_eq!(
        result,
        Err(RegisterNgWordError::ValidationError(ValidationError(
            "NgWord must be at most 10 characters long".to_string()
        )))
    );
}

#[test]
fn test_register_ng_word_service_error() {
    let mut service =
        bbs_core::register_ng_word::DomainServiceImpl::new(FailingRegisterNgWordRepository);

    let result = service.register_ng_word("test", 1);

    assert_eq!(
        result,
        Err(RegisterNgWordError::ServiceError(ServiceError("Database error".to_string())))
    );
}

#[test]
fn test_get_all_post_empty_store() {
    let repository = MemoryRepository::new();
    let service = bbs_core::get_all_post::DomainServiceImpl::new(repository);

    let result = service.get_all_post();

    assert_eq!(result, Ok(vec![]));
}

#[test]
fn test_get_all_post_returns_stamped_feed() {
    let mut repository = MemoryRepository::new();
    repository.add_user_name("test");
    repository.set_clock(PostedDatetime { year: 2021, month: 1, day: 1, hour: 0, minute: 0, second: 0 });
    let mut post_service = bbs_core::post::DomainServiceImpl::new(repository);
    post_service.post(unvalidated_post("test_user", "hello")).unwrap_err();
    let repository = post_service.into_repository();
    let mut post_service = bbs_core::post::DomainServiceImpl::new(repository);
    post_service.post(unvalidated_post("test", "hello")).unwrap();
    let repository = post_service.into_repository();

    let service = bbs_core::get_all_post::DomainServiceImpl::new(repository);
    let feed = service.get_all_post().unwrap();
    assert_eq!(feed.len(), 1);
    let dto = PostDto::from(feed[0].clone());
    assert_eq!(dto.posted_user_name, "test");
    assert_eq!(dto.posted_datetime, "2021-01-01T00:00:00Z");
    assert_eq!(dto.content, "hello");
}

#[test]
fn test_datetime_formatting_pads_fields() {
    let mut repository = MemoryRepository::new();
    repository.add_user_name("test");
    repository.set_clock(PostedDatetime { year: 987, month: 12, day: 3, hour: 23, minute: 4, second: 59 });
    let mut post_service = bbs_core::post::DomainServiceImpl::new(repository);
    post_service.post(unvalidated_post("test", "hello")).unwrap();
    let repository = post_service.into_repository();

    let feed = repository.get_all_post().unwrap();
    let dto = PostDto::from(feed[0].clone());
    assert_eq!(dto.posted_datetime, "0987-12-03T23:04:59Z");
}

#[test]
fn test_feed_row_missing_author_defaults_to_empty() {
    let datetime = PostedDatetime { year: 2021, month: 1, day: 1, hour: 0, minute: 0, second: 0 };
    let entry = bbs_core::get_all_post::Post::from_row("hello".to_string(), None, datetime);
    assert_eq!(entry.posted_user_name.0, "");
    assert_eq!(entry.content.0, "hello");

    let entry = bbs_core::get_all_post::Post::from_row(
        "hello".to_string(),
        Some("test".to_string()),
        datetime,
    );
    assert_eq!(entry.posted_user_name.0, "test");
}

#[test]
fn test_register_then_login_round_trip() {
    let repository = MemoryRepository::new();
    let mut register_service = bbs_core::register_user_name::Service::new(repository);
    register_service
        .register_user_name(UnvalidatedUserName("newname".to_string()))
        .unwrap();
    let repository = register_service.into_repository();

    let login_service = bbs_core::login::DomainServiceImpl::new(repository);
    let result = login_service.login(UncheckedUserName("newname".to_string()));

    assert_eq!(result, Ok(()));
}

#[test]
fn test_register_duplicate_name_service_error() {
    let repository = MemoryRepository::new();
    let mut service = bbs_core::register_user_name::Service::new(repository);
    service.register_user_name(UnvalidatedUserName("newname".to_string())).unwrap();

    let result = service.register_user_name(UnvalidatedUserName("newname".to_string()));

    assert_eq!(
        result,
        Err(bbs_core::err::RegisterUserNameError::ServiceError(ServiceError(
            "Already exists".to_string()
        )))
    );
    let repository = service.into_repository();
    assert_eq!(repository.user_name_count(), 1);
}

#[test]
fn test_register_name_containing_ng_word_not_persisted() {
    let mut repository = MemoryRepository::new();
    repository.add_ng_word(&NgWord::new("wor").unwrap(), 1);
    let mut service = bbs_core::register_user_name::Service::new(repository);

    let result = service.register_user_name(UnvalidatedUserName("word".to_string()));

    assert_eq!(
        result,
        Err(bbs_core::err::RegisterUserNameError::ValidationError(ValidationError(
            "Name must not contain NG words".to_string()
        )))
    );
    let repository = service.into_repository();
    assert_eq!(repository.user_name_count(), 0);
}

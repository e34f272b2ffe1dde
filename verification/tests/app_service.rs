use bbs_core::app_service::register_user_name::{AppServiceImpl, RegisterUserNameErrorDto, UserNameDto};
use bbs_core::err::{RegisterUserNameError, ServiceError};
use bbs_core::interface;
use bbs_core::login::LoginError;
use bbs_core::memory::MemoryRepository;
use bbs_core::model::{NgWord, UserName};
use bbs_core::post::PostError;
use bbs_core::register_ng_word::RegisterNgWordError;
use bbs_core::register_user_name::{DomainServiceImpl, RegisterUserNameRepository};

struct FailingRegisterUserNameRepository {
    message: String,
}

impl RegisterUserNameRepository for FailingRegisterUserNameRepository {
    fn find_ng_word(&self, _user_name: &UserName) -> Result<bool, RegisterUserNameError> {
        Err(RegisterUserNameError::ServiceError(ServiceError(self.message.clone())))
    }

    fn create_user_name(&mut self, _user_name: &UserName) -> Result<(), ServiceError> {
        Err(ServiceError(self.message.clone()))
    }
}

#[test]
fn test_register_user_name() {
    let repository = MemoryRepository::new();
    let mut app_service = AppServiceImpl::new(DomainServiceImpl::new(repository));

    let result = app_service.register_user_name(UserNameDto("user_name".to_string()));

    assert!(result.is_ok());
}

#[test]
fn test_register_user_name_validation_error() {
    let mut repository = MemoryRepository::new();
    repository.add_ng_word(&NgWord::new("wor").unwrap(), 1);
    let mut app_service = AppServiceImpl::new(DomainServiceImpl::new(repository));

    let result = app_service.register_user_name(UserNameDto("word".to_string()));

    assert!(result.is_err());
    assert_eq!(
        result.unwrap_err(),
        RegisterUserNameErrorDto {
            error_code: 400,
            error_message: "Name must not contain NG words".to_string(),
        }
    );
}

#[test]
fn test_register_user_name_service_error() {
    let repository = FailingRegisterUserNameRepository { message: "ServiceError".to_string() };
    let mut app_service = AppServiceImpl::new(DomainServiceImpl::new(repository));

    let result = app_service.register_user_name(UserNameDto("word".to_string()));

    assert!(result.is_err());
    assert_eq!(
        result.unwrap_err(),
        RegisterUserNameErrorDto {
            error_code: 500,
            error_message: "Internal Server Error".to_string(),
        }
    );
}

#[test]
fn test_error_dto_mappings_keep_validation_reason() {
    let dto = interface::register_user_name::RegisterUserNameErrorDto::from(
        RegisterUserNameError::ValidationError(bbs_core::err::ValidationError(
            "Name must not contain NG words".to_string(),
        )),
    );
    assert_eq!(dto.error_code, 400);
    assert_eq!(dto.error_message, "Name must not contain NG words");

    let dto = interface::login::LoginErrorDto::from(LoginError::ValidationError(
        bbs_core::err::ValidationError("User not found".to_string()),
    ));
    assert_eq!(dto.error_code, 400);
    assert_eq!(dto.error_message, "User not found");

    let dto = interface::post::PostErrorDto::from(PostError::ValidationError(
        bbs_core::err::ValidationError("User does not exist".to_string()),
    ));
    assert_eq!(dto.error_code, 400);
    assert_eq!(dto.error_message, "User does not exist");

    let dto = interface::register_ng_word::RegisterNgWordErrorDto::from(
        RegisterNgWordError::ValidationError(bbs_core::err::ValidationError(
            "NgWord must be at least 3 characters long".to_string(),
        )),
    );
    assert_eq!(dto.error_code, 400);
    assert_eq!(dto.error_message, "NgWord must be at least 3 characters long");
}

#[test]
fn test_error_dto_mappings_hide_service_reason() {
    let dto = interface::register_user_name::RegisterUserNameErrorDto::from(
        RegisterUserNameError::ServiceError(ServiceError("connection refused".to_string())),
    );
    assert_eq!(dto.error_code, 500);
    assert_eq!(dto.error_message, "Internal Server Error");

    let dto = interface::login::LoginErrorDto::from(LoginError::ServiceError(ServiceError(
        "connection refused".to_string(),
    )));
    assert_eq!(dto.error_code, 500);
    assert_eq!(dto.error_message, "Internal Server Error");

    let dto = interface::post::PostErrorDto::from(PostError::ServiceError(ServiceError(
        "connection refused".to_string(),
    )));
    assert_eq!(dto.error_code, 500);
    assert_eq!(dto.error_message, "Internal Server Error");

    let dto = interface::register_ng_word::RegisterNgWordErrorDto::from(
        RegisterNgWordError::ServiceError(ServiceError("connection refused".to_string())),
    );
    assert_eq!(dto.error_code, 500);
    assert_eq!(dto.error_message, "Internal Server Error");
}

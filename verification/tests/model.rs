use bbs_core::err::ValidationError;
use bbs_core::model::{NgWord, UserName};

#[test]
fn test_valid_username() {
    let username = UserName::new("validname");
    assert!(username.is_ok());
    assert_eq!(username.unwrap().value(), "validname");
}

#[test]
fn test_username_too_short() {
    let username = UserName::new("ab");
    assert!(username.is_err());
    assert_eq!(
        username.err().unwrap(),
        ValidationError("Username must be at least 3 characters long".to_string())
    );
}

#[test]
fn test_username_too_long() {
    let username = UserName::new("thisisaverylongusername");
    assert!(username.is_err());
    assert_eq!(
        username.err().unwrap(),
        ValidationError("Username must be at most 16 characters long".to_string())
    );
}

#[test]
fn test_username_edge_case_min_length() {
    let username = UserName::new("abc");
    assert!(username.is_ok());
    assert_eq!(username.unwrap().value(), "abc");
}

#[test]
fn test_username_edge_case_max_length() {
    let username = UserName::new("sixteencharacter");
    assert!(username.is_ok());
    assert_eq!(username.unwrap().value(), "sixteencharacter");
}

#[test]
fn test_valid_ng_word() {
    let ng_word = NgWord::new("validword");
    assert!(ng_word.is_ok());
    assert_eq!(ng_word.unwrap().value(), "validword");
}

#[test]
fn test_ng_word_too_short() {
    let ng_word = NgWord::new("ab");
    assert!(ng_word.is_err());
    assert_eq!(
        ng_word.err().unwrap(),
        ValidationError("NgWord must be at least 3 characters long".to_string())
    );
}

#[test]
fn test_ng_word_too_long() {
    let ng_word = NgWord::new("thisisaverylongword");
    assert!(ng_word.is_err());
    assert_eq!(
        ng_word.err().unwrap(),
        ValidationError("NgWord must be at most 10 characters long".to_string())
    );
}

#[test]
fn test_ng_word_edge_case_min_length() {
    let ng_word = NgWord::new("abc");
    assert!(ng_word.is_ok());
    assert_eq!(ng_word.unwrap().value(), "abc");
}

#[test]
fn test_ng_word_edge_case_max_length() {
    let ng_word = NgWord::new("tencharact");
    assert!(ng_word.is_ok());
    assert_eq!(ng_word.unwrap().value(), "tencharact");
}

#[test]
fn model_test_valid_username() {
    let username = UserName::new("validname");
    assert!(username.is_ok());
    assert_eq!(username.unwrap().value(), "validname");
}

#[test]
fn model_test_username_too_short() {
    let username = UserName::new("ab");
    assert!(username.is_err());
    assert_eq!(
        username.err().unwrap(),
        ValidationError("Username must be at least 3 characters long".to_string())
    );
}

#[test]
fn model_test_username_too_long() {
    let username = UserName::new("thisisaverylongusername");
    assert!(username.is_err());
    assert_eq!(
        username.err().unwrap(),
        ValidationError("Username must be at most 16 characters long".to_string())
    );
}

#[test]
fn model_test_username_edge_case_min_length() {
    let username = UserName::new("abc");
    assert!(username.is_ok());
    assert_eq!(username.unwrap().value(), "abc");
}

#[test]
fn model_test_username_edge_case_max_length() {
    let username = UserName::new("sixteencharacter");
    assert!(username.is_ok());
    assert_eq!(username.unwrap().value(), "sixteencharacter");
}

use bbs_core::get_all_post::GetAllPostRepository;
use bbs_core::memory::MemoryRepository;
use bbs_core::model::{NgWord, UnvalidatedUserName};
use bbs_core::post::{DomainServiceImpl, UnvalidatedPost};
use bbs_core::text::{contains_str, mask_word, str_eq};

fn post_through(mut repository: MemoryRepository, content: &str) -> (String, MemoryRepository) {
    repository.add_user_name("user_name");
    let mut service = DomainServiceImpl::new(repository);
    let post = UnvalidatedPost {
        user_name: UnvalidatedUserName("user_name".to_string()),
        content: content.to_string(),
    };
    service.post(post).unwrap();
    let repository = service.into_repository();
    let feed = repository.get_all_post().unwrap();
    (feed[feed.len() - 1].content.0.clone(), repository)
}

#[test]
fn test_post_ng_word_masks_whole_content() {
    let mut repository = MemoryRepository::new();
    repository.add_ng_word(&NgWord::new("content").unwrap(), 1);
    let (persisted, _) = post_through(repository, "content");
    assert_eq!(persisted, "*******");
}

#[test]
fn test_post_masks_every_occurrence() {
    let mut repository = MemoryRepository::new();
    repository.add_ng_word(&NgWord::new("bad").unwrap(), 1);
    let (persisted, _) = post_through(repository, "bad day, bad badge");
    assert_eq!(persisted, "*** day, *** ***ge");
}

#[test]
fn test_moderation_masks_nested_word_first() {
    // "sword" has the shorter NG word "wor" inside it; masking "wor" first
    // leaves nothing for "sword" to match
    let mut repository = MemoryRepository::new();
    repository.add_ng_word(&NgWord::new("wor").unwrap(), 1);
    repository.add_ng_word(&NgWord::new("sword").unwrap(), 1);
    let (persisted, _) = post_through(repository, "sword");
    assert_eq!(persisted, "s***d");
}

#[test]
fn test_moderation_order_sensitivity() {
    // the same dictionary in the other order masks the longer word whole
    let mut repository = MemoryRepository::new();
    repository.add_ng_word(&NgWord::new("sword").unwrap(), 1);
    repository.add_ng_word(&NgWord::new("wor").unwrap(), 1);
    let (persisted, _) = post_through(repository, "sword");
    assert_eq!(persisted, "*****");
}

#[test]
fn test_moderation_idempotent_when_no_word_remains() {
    // posting the transformed output again changes nothing: no dictionary
    // word occurs in it any more
    let mut repository = MemoryRepository::new();
    repository.add_ng_word(&NgWord::new("wor").unwrap(), 1);
    repository.add_ng_word(&NgWord::new("sword").unwrap(), 1);
    let (first, repository) = post_through(repository, "sword fight");
    assert_eq!(first, "s***d fight");
    let mut repository = repository;
    repository.add_user_name("other_user");
    let mut service = DomainServiceImpl::new(repository);
    let post = UnvalidatedPost {
        user_name: UnvalidatedUserName("other_user".to_string()),
        content: first.clone(),
    };
    service.post(post).unwrap();
    let repository = service.into_repository();
    let feed = repository.get_all_post().unwrap();
    assert_eq!(feed[1].content.0, "s***d fight");
}

#[test]
fn test_mask_word_replaces_leftmost_without_rescan() {
    let masked = mask_word("aaa", "aa");
    assert_eq!(masked, "**a");
}

#[test]
fn test_mask_word_absent_pattern_leaves_text() {
    let masked = mask_word("hello world", "xyz");
    assert_eq!(masked, "hello world");
}

#[test]
fn test_contains_str_finds_substrings() {
    assert!(contains_str("word", "wor"));
    assert!(contains_str("word", "word"));
    assert!(!contains_str("word", "words"));
    assert!(!contains_str("wod", "wor"));
    assert!(contains_str("anything", ""));
}

#[test]
fn test_str_eq_compares_exactly() {
    assert!(str_eq("abc", "abc"));
    assert!(!str_eq("abc", "abd"));
    assert!(!str_eq("abc", "abcd"));
    assert!(str_eq("", ""));
}

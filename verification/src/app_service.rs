//! Application services: thin wrappers around each domain service.
//!
//! In the running program this layer adds observability around the domain
//! call; the success or error value itself passes through unchanged, and
//! each wrapper's contract restates its domain service's contract to pin
//! that down. The register-user-name wrapper additionally maps the domain
//! error onto its wire-facing form.

pub mod get_all_post;
pub mod login;
pub mod post;
pub mod register_ng_word;
pub mod register_user_name;

//! Core of a small bulletin-board backend: validated value objects,
//! an NG-word moderation pipeline, and the domain services that tie
//! them together over narrow repository interfaces.

pub mod app_service;
pub mod err;
pub mod get_all_post;
pub mod interface;
pub mod laws;
pub mod login;
pub mod memory;
pub mod model;
pub mod post;
pub mod register_ng_word;
pub mod register_user_name;
pub mod repository;
pub mod service;
pub mod text;

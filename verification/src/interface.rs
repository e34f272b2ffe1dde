//! Wire-facing data shapes: the error body each use case answers failures
//! with, and the feed entry as it is serialized for readers. The
//! serialization itself is a transport concern; these types pin down the
//! values it carries.

pub mod get_all_post;
pub mod login;
pub mod post;
pub mod register_ng_word;
pub mod register_user_name;

//! The core of a URL shortener.
//!
//! A URL is stored in a relational store, and its short code is the id of
//! its row written in base 36: the code is derived, never stored.
//!
//! - [`short_code`]: the codec between row ids and short codes, and the
//!   random tokens that serve as API keys.
//! - [`schema`]: the schema of the store and its check.
//! - [`db`]: the query engine. It decides what to ask of the store and
//!   what to answer; the caller talks to the store.
//! - [`url_check`]: the check that a text is a URL which can be shortened.
//! - [`server`] and [`response_types`]: what the HTTP boundary decides.
//! - [`shortener`]: a shortener that keeps its URLs in memory.
//! - [`text`]: escaping a text for an HTML page.

pub mod db;
pub mod response_types;
pub mod schema;
pub mod server;
pub mod short_code;
pub mod shortener;
pub mod text;
pub mod url_check;

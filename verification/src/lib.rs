//! A client for several providers of large language models.
//!
//! The library resolves which service, model and system prompt an
//! invocation uses, says what to send to the provider, and reads what comes
//! back. It sends nothing itself: a driver hands out an
//! [`http::HttpRequest`] and takes the [`http::HttpReply`] that came of it.

pub mod config;
pub mod drivers;
pub mod error;
pub mod extract;
pub mod http;
pub mod json;
pub mod llm;
pub mod locale;
pub mod provider;
pub mod table;
pub mod text;

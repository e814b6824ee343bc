//! Translation through an OpenAI-compatible chat-completion API, in two stages:
//! resolving an untyped configuration bag into a request specification, and
//! reading the reply body into translated text or a classified failure.
//! Sending the request itself is left to the caller.

pub mod config;
pub mod decimal;
pub mod error;
pub mod options;
pub mod reply;

pub use config::{bearer_value, build_prompt, chat_messages, request_headers, resolve_config, resolve_stream, resolve_timeout, ChatMessage, RequestSpec};
pub use error::TranslateError;
pub use options::Options;
pub use reply::{interpret_reply, read_reply};

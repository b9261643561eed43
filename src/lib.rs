//! Typed request builders for a cloud provider's REST API: DNS record payloads,
//! the verb transitions that turn a resource scope into a request, and the text
//! reports shown for records and accounts.

pub mod builder;
pub mod dns;
pub mod json;
pub mod response;
pub mod text;

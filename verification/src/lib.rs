//! A small REST client core: it resolves request URLs against a base server,
//! merges header sets, frames JSON bodies, decodes response bodies and folds
//! every kind of failure into one error shape, [`exceptions::HTTPException`].
//!
//! Nothing here touches the network. A caller turns a
//! [`client::PreparedRequest`] into an exchange, and hands the bytes that came
//! back to [`body::decode_body`].

pub mod body;
pub mod client;
pub mod exceptions;
pub mod headers;
pub mod json;
pub mod status;
pub mod text;
pub mod transport;
pub mod urls;

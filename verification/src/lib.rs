//! Classification of reply-line codes of a line-oriented routing-daemon
//! control protocol: a total decoder from `(code, text)` to a tagged
//! message, and its inverse encoder back to the numeric code.

pub mod message;

pub use message::Message;

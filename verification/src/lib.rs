//! A unified request/response payload abstraction for an HTTP client.
//!
//! A [`Body`] holds one of four backing representations — no bytes at all, a
//! borrowed byte region, an owned shareable buffer, or an asynchronous byte
//! source with an optional declared length — and exposes one read interface
//! over all of them.

pub mod body;
pub mod upstream;

pub use body::Body;
pub use body::ReadStep;
pub use body::Repr;
pub use body::TextDrain;
pub use body::TextError;
pub use body::TextPoll;
pub use body::READ_CHUNK;

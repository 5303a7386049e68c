//! A verified core for a minimal Gemini protocol client.
//!
//! The library covers the protocol exchange itself: formatting the
//! request line, parsing the response header, classifying status codes,
//! and dispatching on the response. The encrypted transport, command-line
//! handling and printing live outside the library; they hand it plain
//! bytes and strings and take plain values back.

pub mod dispatch;
pub mod error;
pub mod header;
pub mod request;
pub mod status;
pub mod stream;

pub use dispatch::DispatchOutcome;
pub use error::GeminiError;
pub use header::ResponseHeader;
pub use status::StatusCode;
pub use stream::ByteStream;

//! Declarative outbound HTTP requests.
//!
//! A [`Request`] describes one call. The library validates its options,
//! assembles a transport client and a request for it, and turns what came
//! over the wire into a [`Response`] whose body is decoded by content type.
//! The network round trip itself is left to the caller: it lies between
//! [`execute::prepare`] and [`execute::finish`].

pub mod assemble;
pub mod decode;
pub mod error;
pub mod execute;
pub mod headers;
pub mod method;
pub mod request;
pub mod response;
pub mod timeout;
pub mod transport;
pub mod validate;

pub use decode::BodyType;
pub use error::HttpError;
pub use request::Request;
pub use response::Response;

//! The connection core of a small blocking HTTP client: timeout budgeting,
//! host normalisation, the proxy tunnel, the request head, reading the
//! response head, and redirect decisions. Each is a verified function that
//! the I/O driver calls between its blocking steps.
pub mod connection;
pub mod error;
pub mod host;
pub mod proxy;
pub mod request;
pub mod response;
pub mod text;
pub mod timing;
pub mod wire;

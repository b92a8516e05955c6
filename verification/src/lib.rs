//! A verified core for a minimal HTTP/1.1 server: a byte-level request
//! parser, a router that maps requests to filesystem actions, and a
//! response builder and serializer. Socket and filesystem work lives
//! outside the library; everything here is pure and carries a contract.

pub mod bytes;
pub mod laws;
pub mod parser;
pub mod response;
pub mod router;
pub mod words;

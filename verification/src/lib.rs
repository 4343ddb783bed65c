//! Construction of generic, self-describing message trees for Cosmos SDK
//! transactions, together with the small protobuf wire encoder used to embed
//! authorization payloads as opaque byte fields.
//!
//! A remote signing service consumes the trees produced here; it trusts the
//! declared kind labels and protobuf field ids verbatim, so every builder must
//! reproduce the target schema's field numbering exactly.

pub mod config;
pub mod payload;
pub mod taurus;
pub mod wire;

//! A typed client for a device registry's module resources: identifier
//! validation, resource paths, the conditional-write policy of each operation
//! and the handling of the registry's replies, all stated as contracts.
pub mod error;
pub mod validate;
pub mod model;
pub mod client;
pub mod device;

//! A pull-through mirror core for a public package registry: a single-flight
//! in-flight download registry, a streaming tee from a shared append-only
//! buffer, a git-index diff work queue, and object-store upload with retry.

pub mod codec;
pub mod credentials;
pub mod download;
pub mod error;
pub mod flow;
pub mod index;
pub mod json;
pub mod lock;
pub mod obs;
pub mod registry;
pub mod req;
pub mod strutil;
pub mod tee;
pub mod upload;
pub mod upyun;

pub use error::Error;
pub use req::CrateReq;

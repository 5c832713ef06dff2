//! Request-pipeline interception: derive a client address from a request
//! context under one of two addressing policies, sequence an external lookup
//! and a storage call strictly after a wrapped handler's completion, and
//! reconcile the failure points into one tagged error channel.

pub mod config;
pub mod dispatch;
pub mod error;
pub mod extract;
pub mod store;

pub use config::IPQuery;
pub use dispatch::Dispatch;
pub use error::DispatchError;
pub use error::ErrorModel;
pub use store::IPQueryStore;

//! Network grid fetching for PROJ: the retry policy, the request and response
//! rules and the per-file handle behind the engine's network callbacks, and
//! the plain rules behind the engine's settings.

pub mod backoff;
pub mod buffer;
pub mod decimal;
pub mod error;
pub mod handle;
pub mod headers;
pub mod info;
pub mod network;
pub mod request;
pub mod response;
pub mod retry;
pub mod settings;
pub mod status;
pub mod text;

pub use crate::error::ProjError;
pub use crate::info::Projinfo;

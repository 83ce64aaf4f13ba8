//! A dynamic client builder that picks a model provider at run time.

pub mod builder;
pub mod client;
pub mod completion;
pub mod env;
pub mod error;
pub mod provider;

pub use builder::DynClientBuilder;
pub use client::AnyClient;
pub use error::Error;
pub use provider::{ParseProviderError, Provider};

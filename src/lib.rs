//! Package specs for building distribution packages: the schema of a spec,
//! resolving the other specs it refers to, instantiating a spec for one
//! variant, and rendering prompt templates from an instance.

pub mod schema;
pub mod instance;
pub mod resolve;
pub mod templates;

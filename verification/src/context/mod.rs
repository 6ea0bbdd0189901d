//! Building the model's context: prompt sections, their composition into a
//! system prompt, and the context builder.
pub mod builder;
pub mod composer;
pub mod error;
pub mod section;
pub mod sections;

//! Uniform access to several templating backends.
//!
//! A registry records, for each template name, the file it was found in and
//! the extension of the backend that owns it. [`Engines`] holds one
//! initialized instance of each backend, decides which backend is to render
//! a template, and lists the templates that the backends hold.

pub mod backend;
pub mod engines;
pub mod registry;

pub use backend::Engine;
pub use engines::{Engines, Owner};
pub use registry::TemplateInfo;

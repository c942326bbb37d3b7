//! A document-compilation support library: it marshals dynamically shaped
//! host values into a typed value model, renders values as source literals,
//! assembles the final compilation unit, and resolves files and packages
//! for the typesetting engine.

pub mod assemble;
pub mod convert;
pub mod datetime;
pub mod engine;
pub mod error;
pub mod metadata;
pub mod packages;
pub mod render;
pub mod text;
pub mod value;
pub mod world;

pub use convert::{term_to_value, terms_to_dict, ConvError, PathSeg};
pub use datetime::Datetime;
pub use error::TypstError;
pub use metadata::generate_document_metadata;
pub use packages::{get_cache_dir, PackageCache, PackageId};
pub use value::{get_term_type_name, HostTerm, Value};
pub use world::{today, FileIdentity, TypstWorld};

//! Loading configuration from environment variables.
//!
//! A structure names, for each of its fields, the environment variable the
//! field is read from. This crate holds the two halves of that scheme: the
//! run-time loader that turns one variable into one typed value or a precise
//! error, and the generator that inspects a structure's annotated fields and
//! writes the initialisation code for it.
//!
//! The environment is handed in as a value, an [`Environment`]: the crate
//! itself reads nothing from the process it runs in.

pub mod env;
pub mod error;
pub mod generate;
pub mod load;
pub mod parse;
pub mod syntax;
pub mod text;

pub use crate::env::Environment;
pub use crate::error::Error;
pub use crate::load::{load_var, Envconfig, Record};
pub use crate::parse::FromText;

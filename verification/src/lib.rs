//! Materialises a named template, a flat directory of files, into a target
//! directory, and captures a directory as a new template.
//!
//! The crate computes; it never touches the file system, and it does not
//! run the template engine. A caller lists a directory and hands the
//! listing over; makes the calls to the engine that `next_call` asks for
//! and records the answers; and receives a plan: the files to write or the
//! copies to make. Contracts are stated over path and byte sequences, so
//! that what a plan does to a file store can be proved.

pub mod cli;
pub mod config;
pub mod context;
pub mod engine;
pub mod error;
pub mod materialize;
pub mod outside;
pub mod paths;
pub mod plan;
pub mod store;
pub mod template;

pub use cli::{Cli, Commands, ConfigArgs, Job, SaveArgs, UseArgs};
pub use config::{get_config, get_config_path, Config};
pub use context::{context_path, load_context, ContextSource, TemplateContext};
pub use engine::{
    contains_marker, engine_sources, next_call, render_all, rendered_entry, Answers, EngineCall,
};
pub use error::{ContextError, IOError, TemplateError};
pub use materialize::{copies_of, place_outputs, save_template, use_template};
pub use plan::{create_failure, CopyOp, FileWrite};
pub use template::{is_valid_name, regular_files, Entry, EntryKind, Listed, Template};

//! The direct command line of an adapter: its flags and their rules, the
//! checks on argument lists, and the options an operation is run with.

pub mod native_options;
pub mod output_mode;
pub mod flags;
pub mod parse_errors;
pub mod options;
pub mod config_paths;
pub mod input_errors;
pub mod request;
pub mod config_source;
pub mod help;

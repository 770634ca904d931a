//! Verified core of the docnav adapter SDK: loose CLI argument scanning,
//! diagnostic codes, records and stacks, warnings, adapter exit codes,
//! character-budget paging and the direct-CLI argument rules.

pub mod text;
pub mod cli_args;
pub mod codes;
pub mod json;
pub mod json_text;
pub mod details;
pub mod payload;
mod sealed;
pub mod markers;
pub mod conversion;
pub mod typed_codes;
pub mod record;
pub mod stack;
pub mod warning;
pub mod warning_id;
pub mod paging;
pub mod error;
pub mod number;
pub mod direct;
pub mod command;
pub mod boundary_output;

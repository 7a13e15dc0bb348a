//! A per-directory sync configuration library.
//!
//! A checksum configuration tracks two string-to-string mappings, `folders`
//! and `files`, stored as a TOML document. Alongside it lives a plain-text
//! ignore list, one pattern per line. This crate holds the verified logic:
//! the configuration model, parsing and serialization contracts, incremental
//! add/remove edits that preserve the document's formatting, and the
//! splitting of ignore-file text into lines. Reading and writing the files
//! themselves is left to the caller.

mod config;
mod ignore;
mod string_map;
mod text;
mod toml_codec;

pub use config::{
    apply_edit, default_checksum_contents, lemma_add_then_remove, parse_checksum_config,
    serialize_checksum_config, update_folder_config, Config, ConfigError, FolderConfig,
};
pub use ignore::{get_ignore_file, spec_lines};
pub use string_map::StringMap;
pub use toml_codec::toml_parse;

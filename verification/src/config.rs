//! The checksum configuration: its model, parsing, serialization and edits.

use vstd::prelude::*;
use vstd::string::StringExecFns;

use crate::string_map::StringMap;
use crate::text::str_eq;
use crate::toml_codec::{
    doc_set_entry, doc_to_text, parse_config_pairs, parse_document_text, serialize_config_pairs,
    toml_parse,
};

verus! {

/// A checksum configuration: the known folders and files of a directory,
/// each mapped to an opaque string value.
#[derive(Debug)]
pub struct Config {
    pub folders: StringMap,
    pub files: StringMap,
}

impl Config {
    /// Both mappings keep their keys unique.
    pub open spec fn wf(&self) -> bool {
        self.folders.wf() && self.files.wf()
    }

    /// The default configuration: both mappings empty.
    pub fn new() -> (r: Config)
        ensures
            r.wf(),
            r.folders@ == Map::<Seq<char>, Seq<char>>::empty(),
            r.files@ == Map::<Seq<char>, Seq<char>>::empty(),
    {
        Config { folders: StringMap::new(), files: StringMap::new() }
    }
}

/// A pending mutation of one mapping: add an entry under an item's name, or
/// remove the entry of that name.
pub enum FolderConfig {
    Add(String),
    Remove(String),
}

/// Why an update was refused: the key selects neither mapping, or the given
/// text is no checksum configuration.
#[derive(Debug, PartialEq, Eq)]
pub enum ConfigError {
    InvalidKey,
    Parse,
}

impl ConfigError {
    /// A short description of the error.
    pub fn message(&self) -> (r: &'static str)
        ensures
            self is InvalidKey ==> r@ == "key selects neither folders nor files"@,
            self is Parse ==> r@ == "Error parsing config"@,
    {
        match self {
            ConfigError::InvalidKey => "key selects neither folders nor files",
            ConfigError::Parse => "Error parsing config",
        }
    }
}

/// What an edit does to the two mappings: `Add` inserts the item under its
/// own name into the mapping the key selects (`folders` when the key is
/// `folders`, `files` otherwise), `Remove` takes the item's entry out of it.
pub open spec fn apply_edit(
    cfg: (Map<Seq<char>, Seq<char>>, Map<Seq<char>, Seq<char>>),
    key: Seq<char>,
    edit: FolderConfig,
) -> (Map<Seq<char>, Seq<char>>, Map<Seq<char>, Seq<char>>) {
    match edit {
        FolderConfig::Add(item) => if key == "folders"@ {
            (cfg.0.insert(item@, item@), cfg.1)
        } else {
            (cfg.0, cfg.1.insert(item@, item@))
        },
        FolderConfig::Remove(item) => if key == "folders"@ {
            (cfg.0.remove(item@), cfg.1)
        } else {
            (cfg.0, cfg.1.remove(item@))
        },
    }
}

/// Adding an item that a mapping does not yet hold and then removing it under
/// the same key returns both mappings to their prior state.
pub proof fn lemma_add_then_remove(
    cfg: (Map<Seq<char>, Seq<char>>, Map<Seq<char>, Seq<char>>),
    key: Seq<char>,
    item: String,
)
    requires
        key == "folders"@ ==> !cfg.0.dom().contains(item@),
        key != "folders"@ ==> !cfg.1.dom().contains(item@),
    ensures
        apply_edit(
            apply_edit(cfg, key, FolderConfig::Add(item)),
            key,
            FolderConfig::Remove(item),
        ) == cfg,
{
    if key == "folders"@ {
        assert(cfg.0.insert(item@, item@).remove(item@) =~= cfg.0);
    } else {
        assert(cfg.1.insert(item@, item@).remove(item@) =~= cfg.1);
    }
}

/// Deserialize raw checksum-file text into a configuration. Returns the
/// configuration exactly when the text parses as the two-table shape, and a
/// descriptive error otherwise.
pub fn parse_checksum_config(data: String) -> (r: Result<Config, String>)
    ensures
        r is Ok <==> toml_parse(data@) is Some,
        r matches Ok(c) ==> c.wf() && toml_parse(data@) == Some((c.folders@, c.files@)),
        r matches Err(m) ==> m@ == "Error parsing config"@,
{
    match parse_config_pairs(data.as_str()) {
        Ok((fo, fi)) => Ok(
            Config { folders: StringMap::from_pairs(fo), files: StringMap::from_pairs(fi) },
        ),
        Err(_) => Err(String::from_str("Error parsing config")),
    }
}

/// Serialize a configuration to checksum-file text; the text parses back to
/// the same two mappings.
pub fn serialize_checksum_config(config: &Config) -> (r: String)
    requires
        config.wf(),
    ensures
        toml_parse(r@) == Some((config.folders@, config.files@)),
{
    serialize_config_pairs(config.folders.borrow_pairs(), config.files.borrow_pairs())
}

/// The text a fresh checksum file is created with: a default configuration
/// whose two mappings are both empty.
pub fn default_checksum_contents() -> (r: String)
    ensures
        toml_parse(r@) == Some(
            (Map::<Seq<char>, Seq<char>>::empty(), Map::<Seq<char>, Seq<char>>::empty()),
        ),
{
    let config = Config::new();
    serialize_checksum_config(&config)
}

/// Apply an edit to checksum-file text and return the updated text.
///
/// `Add` edits the document in place, so formatting and entries away from the
/// touched one are preserved; `Remove` rebuilds the document from the parsed
/// configuration. Either way the result parses to the prior mappings with the
/// edit applied. A key naming neither mapping is refused, as is text that
/// does not parse as a checksum configuration.
pub fn update_folder_config(data: &str, key: &str, action: &FolderConfig) -> (r: Result<
    String,
    ConfigError,
>)
    ensures
        (key@ != "folders"@ && key@ != "files"@) <==> r == Err::<String, _>(
            ConfigError::InvalidKey,
        ),
        (key@ == "folders"@ || key@ == "files"@) ==> ((r == Err::<String, _>(ConfigError::Parse))
            <==> toml_parse(data@) is None),
        r matches Ok(text) ==> {
            &&& toml_parse(data@) matches Some(m)
            &&& toml_parse(text@) == Some(apply_edit(m, key@, *action))
        },
{
    let is_folders = str_eq(key, "folders");
    let is_files = str_eq(key, "files");
    if !is_folders && !is_files {
        return Err(ConfigError::InvalidKey);
    }
    match parse_config_pairs(data) {
        Err(_) => Err(ConfigError::Parse),
        Ok((fo, fi)) => match action {
            FolderConfig::Add(item) => {
                let mut doc = parse_document_text(data);
                doc_set_entry(&mut doc, key, item.as_str());
                Ok(doc_to_text(&doc))
            },
            FolderConfig::Remove(item) => {
                let mut folders = StringMap::from_pairs(fo);
                let mut files = StringMap::from_pairs(fi);
                if is_folders {
                    folders.remove(item);
                } else {
                    files.remove(item);
                }
                Ok(serialize_config_pairs(folders.borrow_pairs(), files.borrow_pairs()))
            },
        },
    }
}

} // verus!

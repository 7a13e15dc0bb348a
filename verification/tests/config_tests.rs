use xsync_config::{
    default_checksum_contents, parse_checksum_config, serialize_checksum_config,
    update_folder_config, Config, ConfigError, FolderConfig, StringMap,
};

fn parse_ok(text: String) -> Config {
    match parse_checksum_config(text) {
        Ok(c) => c,
        Err(m) => panic!("expected a configuration, got error: {}", m),
    }
}

#[test]
fn default_contents_parse_to_empty_config() {
    let text = default_checksum_contents();
    let config = parse_ok(text);
    assert!(config.folders.is_empty());
    assert!(config.files.is_empty());
    assert_eq!(config.folders.len(), 0);
    assert_eq!(config.files.len(), 0);
}

#[test]
fn default_contents_hold_both_tables() {
    let text = default_checksum_contents();
    assert!(text.contains("[folders]"));
    assert!(text.contains("[files]"));
}

#[test]
fn round_trip_single_folder() {
    let config = Config {
        folders: StringMap::from_pairs(vec![("f1".to_string(), "v1".to_string())]),
        files: StringMap::new(),
    };
    let text = serialize_checksum_config(&config);
    let back = parse_ok(text);
    assert_eq!(back.folders.len(), 1);
    assert_eq!(back.folders.get(&"f1".to_string()), Some(&"v1".to_string()));
    assert!(back.files.is_empty());
}

#[test]
fn parse_rejects_garbage() {
    let r = parse_checksum_config("not valid structured data {{{".to_string());
    assert_eq!(r.err(), Some("Error parsing config".to_string()));
}

#[test]
fn parse_rejects_missing_tables() {
    let r = parse_checksum_config("[folders]\n".to_string());
    assert!(r.is_err());
}

#[test]
fn parse_rejects_non_string_values() {
    let r = parse_checksum_config("[folders]\na = 3\n\n[files]\n".to_string());
    assert!(r.is_err());
}

#[test]
fn parse_reads_both_tables() {
    let text = "[folders]\ndocs = \"docs\"\n\n[files]\nnotes = \"abc\"\n".to_string();
    let config = parse_ok(text);
    assert_eq!(config.folders.get(&"docs".to_string()), Some(&"docs".to_string()));
    assert_eq!(config.files.get(&"notes".to_string()), Some(&"abc".to_string()));
    assert!(!config.folders.contains_key(&"notes".to_string()));
}

#[test]
fn add_then_remove_restores_empty_folders() {
    let text0 = default_checksum_contents();
    let text1 =
        update_folder_config(&text0, "folders", &FolderConfig::Add("docs".to_string())).unwrap();
    let mid = parse_ok(text1.clone());
    assert_eq!(mid.folders.get(&"docs".to_string()), Some(&"docs".to_string()));
    assert!(mid.files.is_empty());
    let text2 =
        update_folder_config(&text1, "folders", &FolderConfig::Remove("docs".to_string()))
            .unwrap();
    let end = parse_ok(text2);
    assert!(end.folders.is_empty());
    assert!(end.files.is_empty());
}

#[test]
fn add_targets_the_files_table_too() {
    let text0 = default_checksum_contents();
    let text1 =
        update_folder_config(&text0, "files", &FolderConfig::Add("a.txt".to_string())).unwrap();
    let config = parse_ok(text1);
    assert!(config.folders.is_empty());
    assert_eq!(config.files.get(&"a.txt".to_string()), Some(&"a.txt".to_string()));
}

#[test]
fn add_preserves_unrelated_formatting() {
    let text = "# kept comment\n[folders]\nexisting = \"existing\"\n\n[files]\n";
    let updated =
        update_folder_config(text, "folders", &FolderConfig::Add("docs".to_string())).unwrap();
    assert!(updated.contains("# kept comment"));
    assert!(updated.contains("existing = \"existing\""));
    let config = parse_ok(updated);
    assert_eq!(config.folders.len(), 2);
    assert_eq!(config.folders.get(&"docs".to_string()), Some(&"docs".to_string()));
}

#[test]
fn add_overwrites_an_existing_entry() {
    let text = "[folders]\ndocs = \"stale\"\n\n[files]\n";
    let updated =
        update_folder_config(text, "folders", &FolderConfig::Add("docs".to_string())).unwrap();
    let config = parse_ok(updated);
    assert_eq!(config.folders.len(), 1);
    assert_eq!(config.folders.get(&"docs".to_string()), Some(&"docs".to_string()));
}

#[test]
fn remove_of_absent_item_changes_nothing() {
    let text = "[folders]\ndocs = \"docs\"\n\n[files]\n";
    let updated =
        update_folder_config(text, "folders", &FolderConfig::Remove("other".to_string()))
            .unwrap();
    let config = parse_ok(updated);
    assert_eq!(config.folders.get(&"docs".to_string()), Some(&"docs".to_string()));
    assert_eq!(config.folders.len(), 1);
}

#[test]
fn update_rejects_an_unknown_key() {
    let text0 = default_checksum_contents();
    let r = update_folder_config(&text0, "other", &FolderConfig::Add("docs".to_string()));
    assert_eq!(r, Err(ConfigError::InvalidKey));
}

#[test]
fn update_rejects_unparsable_text() {
    let r = update_folder_config(
        "not valid structured data {{{",
        "folders",
        &FolderConfig::Add("docs".to_string()),
    );
    assert_eq!(r, Err(ConfigError::Parse));
    assert_eq!(ConfigError::Parse.message(), "Error parsing config");
}

use canzero_appdata::{
    ancestor_dirs, appdata_path, storage_dir, AppData, AppDataError, ResolvedPath,
};

fn file_path(path: &str) -> Option<ResolvedPath> {
    Some(ResolvedPath::new(path.to_string(), false))
}

fn dir_path(path: &str) -> Option<ResolvedPath> {
    Some(ResolvedPath::new(path.to_string(), true))
}

#[test]
fn read_missing_storage_defaults() {
    let mut data = AppData::read(None).unwrap();
    assert_eq!(data.get_config_path(), None);
    assert_eq!(data.flush(), None);
}

#[test]
fn default_record_is_empty_and_clean() {
    let mut data = AppData::default();
    assert_eq!(data.get_config_path(), None);
    assert_eq!(data.flush(), None);
}

#[test]
fn no_op_finalization_after_read() {
    let mut data = AppData::read(Some("config_path = \"/abs/x\"")).unwrap();
    assert_eq!(data.get_config_path(), Some(&"/abs/x".to_string()));
    assert_eq!(data.flush(), None);
}

#[test]
fn round_trip_through_flush_and_read() {
    let mut data = AppData::default();
    data.set_config_path(file_path("/abs/target")).unwrap();
    let text = data.flush().unwrap();
    assert!(text.starts_with("config_path"));
    let back = AppData::read(Some(&text)).unwrap();
    assert_eq!(back.get_config_path(), Some(&"/abs/target".to_string()));
}

#[test]
fn round_trip_with_escaped_characters() {
    let tricky = "/tmp/a \"b\"\\c";
    let mut data = AppData::default();
    data.set_config_path(file_path(tricky)).unwrap();
    let text = data.flush().unwrap();
    let back = AppData::read(Some(&text)).unwrap();
    assert_eq!(back.get_config_path(), Some(&tricky.to_string()));
}

#[test]
fn round_trip_of_unset_path() {
    let mut data = AppData::read(Some("config_path = \"/abs/x\"")).unwrap();
    data.set_config_path(None).unwrap();
    assert_eq!(data.get_config_path(), None);
    let text = data.flush().unwrap();
    let back = AppData::read(Some(&text)).unwrap();
    assert_eq!(back.get_config_path(), None);
}

#[test]
fn setting_same_path_twice_stays_clean() {
    let mut data = AppData::default();
    data.set_config_path(file_path("/abs/target")).unwrap();
    assert!(data.flush().is_some());
    data.set_config_path(file_path("/abs/target")).unwrap();
    assert_eq!(data.get_config_path(), Some(&"/abs/target".to_string()));
    assert_eq!(data.flush(), None);
}

#[test]
fn setting_none_on_empty_record_stays_clean() {
    let mut data = AppData::default();
    data.set_config_path(None).unwrap();
    assert_eq!(data.flush(), None);
}

#[test]
fn directory_is_rejected_without_mutation() {
    let mut data = AppData::read(Some("config_path = \"/abs/x\"")).unwrap();
    let r = data.set_config_path(dir_path("/abs/some_dir"));
    assert!(matches!(r, Err(AppDataError::InvalidConfigPath)));
    assert_eq!(data.get_config_path(), Some(&"/abs/x".to_string()));
    assert_eq!(data.flush(), None);
}

#[test]
fn stores_the_resolved_path() {
    let mut data = AppData::default();
    data.set_config_path(file_path("/abs/target")).unwrap();
    assert_eq!(data.get_config_path(), Some(&"/abs/target".to_string()));
}

#[test]
fn invalid_toml_is_broken_config() {
    let r = AppData::read(Some("not [ valid toml"));
    assert!(matches!(r, Err(AppDataError::BrokenConfig)));
}

#[test]
fn non_string_entry_is_broken_config() {
    let r = AppData::read(Some("config_path = 3"));
    assert!(matches!(r, Err(AppDataError::BrokenConfig)));
}

#[test]
fn bare_path_text_is_broken_config() {
    let r = AppData::read(Some("/abs/target"));
    assert!(matches!(r, Err(AppDataError::BrokenConfig)));
}

#[test]
fn empty_document_has_no_path() {
    let data = AppData::read(Some("")).unwrap();
    assert_eq!(data.get_config_path(), None);
}

#[test]
fn unknown_keys_are_ignored() {
    let data = AppData::read(Some("other = 1")).unwrap();
    assert_eq!(data.get_config_path(), None);
}

#[test]
fn flushed_text_is_a_toml_document() {
    let mut data = AppData::default();
    data.set_config_path(file_path("/abs/target")).unwrap();
    let text = data.flush().unwrap();
    let table: toml::Table = toml::from_str(&text).unwrap();
    assert_eq!(table.len(), 1);
    assert_eq!(table.get("config_path").unwrap().as_str(), Some("/abs/target"));
}

#[test]
fn flush_of_unset_path_is_empty_document() {
    let mut data = AppData::read(Some("config_path = \"/abs/x\"")).unwrap();
    data.set_config_path(None).unwrap();
    let text = data.flush().unwrap();
    let table: toml::Table = toml::from_str(&text).unwrap();
    assert!(table.is_empty());
}

#[test]
fn appdata_path_under_home() {
    assert_eq!(storage_dir("/home/user"), "/home/user/.canzero");
    assert_eq!(
        appdata_path("/home/user"),
        "/home/user/.canzero/canzero.toml"
    );
}

#[test]
fn ancestor_dirs_parent_first() {
    assert_eq!(
        ancestor_dirs("/home/user/.canzero"),
        vec![
            "/home".to_string(),
            "/home/user".to_string(),
            "/home/user/.canzero".to_string(),
        ]
    );
}

#[test]
fn ancestor_dirs_of_single_name() {
    assert_eq!(ancestor_dirs("a"), vec!["a".to_string()]);
}

#[test]
fn ancestor_dirs_skips_root() {
    assert_eq!(
        ancestor_dirs("/top"),
        vec!["/top".to_string()]
    );
}

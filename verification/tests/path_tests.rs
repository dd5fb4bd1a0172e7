use dotlinker::path::{paths_equal, relative_path, BaseDirs};

#[test]
fn test_base_dirs() {
    let dirs = BaseDirs::new().unwrap();
    assert!(dirs.get("home").is_some());
    assert!(dirs.get("config_home").is_some());
    assert!(dirs.get("invalid_key").is_none());
}

#[test]
fn base_dirs_table_of_a_home() {
    let dirs = BaseDirs::from_home("/home/alice");
    assert_eq!(dirs.get("home").unwrap(), "/home/alice");
    assert_eq!(dirs.get("config_home").unwrap(), "/home/alice/.config");
    assert_eq!(dirs.get("cache_home").unwrap(), "/home/alice/.cache");
    assert_eq!(dirs.get("data_home").unwrap(), "/home/alice/.local/share");
    assert_eq!(dirs.get("local_bin").unwrap(), "/home/alice/.local/bin");
    assert_eq!(dirs.get("local_dir").unwrap(), "/home/alice/.local");
    assert!(dirs.get("xdg_config_home").is_none());
    assert!(dirs.get("").is_none());
}

#[test]
fn base_dirs_keys_in_order() {
    let dirs = BaseDirs::from_home("/h");
    assert_eq!(
        dirs.keys(),
        vec!["home", "cache_home", "config_home", "data_home", "local_bin", "local_dir"]
    );
}

#[test]
fn base_dirs_home_with_trailing_slash() {
    let dirs = BaseDirs::from_home("/root/");
    assert_eq!(dirs.get("config_home").unwrap(), "/root/.config");
}

#[test]
fn base_dirs_keys_are_distinct() {
    let keys = BaseDirs::from_home("/h").keys();
    for i in 0..keys.len() {
        for j in i + 1..keys.len() {
            assert_ne!(keys[i], keys[j]);
        }
    }
}

#[test]
fn relative_paths_by_kind() {
    assert_eq!(relative_path("/foo/bar", "baz").unwrap(), "/foo/bar");
    assert!(relative_path("foo", "/bar").is_none());
    assert_eq!(relative_path("/foo/bar/quux", "/foo/bar/baz").unwrap(), "../quux");
    assert_eq!(relative_path("foo", "bar").unwrap(), "../foo");
    assert!(relative_path("/a/b", "/a/../c").is_none());
}

#[test]
fn paths_compare_by_component() {
    assert!(paths_equal("/a/b", "/a//b/"));
    assert!(paths_equal("/a/./b", "/a/b"));
    assert!(!paths_equal("/a/b", "/a/c"));
}

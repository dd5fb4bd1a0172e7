use dotlinker::config::{parse_mod_documents, parse_mod_yaml, ConfigError, ModInfo, SectionKey};
use dotlinker::yaml::{load_documents, YamlEntry, YamlNode};

fn parse(text: &str) -> ModInfo {
    parse_mod_yaml(text).unwrap()
}

#[test]
fn integers_are_written_in_decimal() {
    let m = parse("mod_info:\n  home:\n    - 42\n    - -7\n    - 0\n    - -9223372036854775808\n    - 0x10\n");
    assert_eq!(m.home.unwrap(), vec!["42", "-7", "0", "-9223372036854775808", "16"]);
}

#[test]
fn booleans_are_written_as_words() {
    let m = parse("mod_info:\n  home:\n    - true\n    - false\n    - x\n");
    assert_eq!(m.home.unwrap(), vec!["true", "false", "x"]);
    let m = parse("dot_rs:\n  home: [true]\n");
    assert_eq!(m.home.unwrap(), vec!["true"]);
}

#[test]
fn non_text_items_are_dropped() {
    let m = parse("mod_info:\n  home:\n    - true\n    - ~\n    - 3.5\n    - [a, b]\n    - {k: v}\n    - keep\n    - '3.5'\n    - \"true\"\n");
    assert_eq!(m.home.unwrap(), vec!["true", "keep", "3.5", "true"]);
}

#[test]
fn section_without_text_items_is_none() {
    let m = parse("mod_info:\n  home:\n    - ~\n    - 1.5\n  config_home: []\n  cache_home: plain\n  data_home:\n  local_bin: {a: b}\n");
    assert!(m.home.is_none());
    assert!(m.config_home.is_none());
    assert!(m.cache_home.is_none());
    assert!(m.data_home.is_none());
    assert!(m.local_bin.is_none());
    assert!(m.local_dir.is_none());
}

#[test]
fn dot_rs_key_is_read() {
    let m = parse("dot_rs:\n  config_home:\n    - hypr\n    - dunst\n  home:\n    - :.Xresources\n");
    assert_eq!(m.config_home.unwrap(), vec!["hypr", "dunst"]);
    assert_eq!(m.home.unwrap(), vec![":.Xresources"]);
}

#[test]
fn dot_rs_wins_over_mod_info() {
    let m = parse("mod_info:\n  home: [old]\ndot_rs:\n  home: [new]\n");
    assert_eq!(m.home.unwrap(), vec!["new"]);
}

#[test]
fn tagged_nodes_are_not_lists_or_texts() {
    let m = parse("dot_rs:\n  home: !custom [a]\n  config_home:\n    - !custom x\n    - !!str 5\n    - y\n");
    assert!(m.home.is_none());
    assert_eq!(m.config_home.unwrap(), vec!["5", "y"]);
}

#[test]
fn aliases_resolve_to_their_anchor() {
    let m = parse("dot_rs:\n  home:\n    - &a shared\n    - *a\n");
    assert_eq!(m.home.unwrap(), vec!["shared", "shared"]);
}

#[test]
fn only_the_first_document_counts() {
    let m = parse("dot_rs:\n  home: [first]\n---\ndot_rs:\n  home: [second]\n");
    assert_eq!(m.home.unwrap(), vec!["first"]);
}

#[test]
fn error_missing_section() {
    assert!(matches!(parse_mod_yaml("other:\n  home: [a]\n"), Err(ConfigError::MissingSection)));
}

#[test]
fn error_root_not_mapping() {
    assert!(matches!(parse_mod_yaml("- a\n- b\n"), Err(ConfigError::RootNotMapping)));
    assert!(matches!(parse_mod_yaml("just text"), Err(ConfigError::RootNotMapping)));
}

#[test]
fn error_empty_document() {
    assert!(matches!(parse_mod_yaml(""), Err(ConfigError::EmptyDocument)));
}

#[test]
fn error_section_not_mapping() {
    let e = parse_mod_yaml("dot_rs: [a]\n").unwrap_err();
    assert!(matches!(e, ConfigError::SectionNotMapping(SectionKey::DotRs)));
    assert_eq!(e.message(), "dot_rs must be a mapping/hash");
    let e = parse_mod_yaml("mod_info:\n").unwrap_err();
    assert!(matches!(e, ConfigError::SectionNotMapping(SectionKey::ModInfo)));
    assert_eq!(e.message(), "mod_info must be a mapping/hash");
    let r = ModInfo::from_yaml(&YamlNode::Str("x".to_string()));
    assert_eq!(r.unwrap_err().message(), "mod_info must be a mapping/hash");
}

#[test]
fn error_invalid_yaml() {
    let r = parse_mod_yaml("dot_rs:\n  home: [unclosed\n");
    match r {
        Err(e @ ConfigError::InvalidYaml(_)) => assert!(e.message().starts_with("Failed to parse YAML: ")),
        other => panic!("expected invalid YAML, got {:?}", other),
    }
}

#[test]
fn error_messages() {
    assert_eq!(ConfigError::EmptyDocument.message(), "YAML file is empty");
    assert_eq!(ConfigError::RootNotMapping.message(), "Root YAML node must be a mapping/hash");
    assert_eq!(ConfigError::MissingSection.message(), "Missing 'dot_rs' key in YAML");
    assert_eq!(ConfigError::SectionNotMapping(SectionKey::DotRs).message(), "dot_rs must be a mapping/hash");
    assert_eq!(ConfigError::SectionNotMapping(SectionKey::ModInfo).message(), "mod_info must be a mapping/hash");
}

#[test]
fn loader_converts_node_for_node() {
    let docs = load_documents("a: [1, x, true, ~]\n").unwrap();
    assert_eq!(docs.len(), 1);
    match &docs[0] {
        YamlNode::Mapping(entries) => {
            assert_eq!(entries.len(), 1);
            assert!(matches!(&entries[0].key, YamlNode::Str(k) if k == "a"));
            match &entries[0].value {
                YamlNode::Sequence(items) => {
                    assert!(matches!(items[0], YamlNode::Integer(1)));
                    assert!(matches!(&items[1], YamlNode::Str(s) if s == "x"));
                    assert!(matches!(items[2], YamlNode::Boolean(true)));
                    assert!(matches!(items[3], YamlNode::Null));
                }
                _ => panic!("expected a sequence"),
            }
        }
        _ => panic!("expected a mapping"),
    }
}

#[test]
fn documents_built_by_hand() {
    let section = YamlNode::Mapping(vec![YamlEntry {
        key: YamlNode::Str("local_bin".to_string()),
        value: YamlNode::Sequence(vec![YamlNode::Str("tool".to_string()), YamlNode::Integer(-3)]),
    }]);
    let root = YamlNode::Mapping(vec![
        YamlEntry { key: YamlNode::Integer(1), value: YamlNode::Null },
        YamlEntry { key: YamlNode::Str("mod_info".to_string()), value: section },
    ]);
    let m = parse_mod_documents(&vec![root]).unwrap();
    assert_eq!(m.local_bin.unwrap(), vec!["tool", "-3"]);
    assert!(m.home.is_none());
    assert!(matches!(parse_mod_documents(&vec![]), Err(ConfigError::EmptyDocument)));
}

use dotlinker::linker::{ConfigFile, DotLinker, LinkerError, ModuleProbe};
use dotlinker::path::BaseDirs;
use dotlinker::symlink::{DestinationProbe, LinkOutcome};

fn linker(relative: bool, dry_run: bool, force: bool) -> DotLinker {
    DotLinker::with_base_dirs("/dots".to_string(), BaseDirs::from_home("/home/u"), dry_run, false, relative, force)
}

fn probe(dir: bool, yaml: ConfigFile, yml: ConfigFile) -> ModuleProbe {
    ModuleProbe { module_dir_exists: dir, mod_yaml: yaml, mod_yml: yml }
}

fn text(s: &str) -> ConfigFile {
    ConfigFile::Text(s.to_string())
}

#[test]
fn module_links_in_section_order() {
    let l = linker(false, true, false);
    let yaml = "dot_rs:\n  home:\n    - :.Xresources\n    - .docker/config.json:docker/config.json\n  config_home:\n    - hypr\n  local_bin:\n    - scripts/my-tool:my-tool\n";
    let plan = l.process_module("hypr", &probe(true, text(yaml), ConfigFile::Missing)).unwrap();
    assert_eq!(plan.module_dir, "/dots/hypr");
    let got: Vec<(String, String, String)> = plan
        .links
        .iter()
        .map(|p| (p.entry.clone(), p.link.source.clone(), p.link.destination.clone()))
        .collect();
    assert_eq!(
        got,
        vec![
            ("hypr".to_string(), "/dots/hypr/hypr".to_string(), "/home/u/.config/hypr".to_string()),
            (":.Xresources".to_string(), "/dots/hypr/.Xresources".to_string(), "/home/u/.Xresources".to_string()),
            (
                ".docker/config.json:docker/config.json".to_string(),
                "/dots/hypr/.docker/config.json".to_string(),
                "/home/u/docker/config.json".to_string()
            ),
            (
                "scripts/my-tool:my-tool".to_string(),
                "/dots/hypr/scripts/my-tool".to_string(),
                "/home/u/.local/bin/my-tool".to_string()
            ),
        ]
    );
}

#[test]
fn mod_yaml_is_preferred_over_mod_yml() {
    let l = linker(false, true, false);
    let p = l
        .process_module("m", &probe(true, text("dot_rs:\n  home: [a]\n"), text("dot_rs:\n  home: [b]\n")))
        .unwrap();
    assert_eq!(p.links[0].entry, "a");
    let p = l.process_module("m", &probe(true, ConfigFile::Missing, text("dot_rs:\n  home: [b]\n"))).unwrap();
    assert_eq!(p.links[0].entry, "b");
}

#[test]
fn module_errors() {
    let l = linker(false, true, false);
    let e = l.process_module("m", &probe(false, text("dot_rs: {}"), ConfigFile::Missing)).unwrap_err();
    assert!(matches!(&e, LinkerError::ModuleDirMissing(p) if p == "/dots/m"));
    assert_eq!(e.message(), "Module directory does not exist: /dots/m");

    let e = l.process_module("m", &probe(true, ConfigFile::Missing, ConfigFile::Missing)).unwrap_err();
    assert_eq!(e.message(), "Module configuration not found: /dots/m/mod.yaml");

    let e = l.process_module("m", &probe(true, ConfigFile::Unreadable, text("dot_rs: {}"))).unwrap_err();
    assert_eq!(e.message(), "Failed to read YAML file: /dots/m/mod.yaml");

    let e = l.process_module("m", &probe(true, ConfigFile::Missing, ConfigFile::Unreadable)).unwrap_err();
    assert_eq!(e.message(), "Failed to read YAML file: /dots/m/mod.yml");

    let e = l.process_module("m", &probe(true, text("other: 1\n"), ConfigFile::Missing)).unwrap_err();
    assert_eq!(e.message(), "Missing 'dot_rs' key in YAML");

    assert_eq!(LinkerError::NoHomeDirectory.message(), "Could not determine home directory");
    assert_eq!(LinkerError::UnknownBaseDir("x".to_string()).message(), "Unknown base directory: x");
}

#[test]
fn unknown_base_dir_is_reported() {
    let l = linker(false, true, false);
    let r = l.process_config_entries("m", "/dots/m", "xdg_data", &Some(vec!["a".to_string()]));
    assert!(matches!(r, Err(LinkerError::UnknownBaseDir(k)) if k == "xdg_data"));
    let r = l.process_config_entries("m", "/dots/m", "xdg_data", &Some(vec![]));
    assert!(r.unwrap().is_empty());
}

#[test]
fn relative_flag_chooses_link_kind() {
    let abs = linker(false, false, false);
    let rel = linker(true, false, false);
    assert!(abs.relative);
    assert!(!rel.relative);
    let entry = abs.process_entry("m", "/dots/m", "/home/u/.config", "x").unwrap();
    let none = DestinationProbe { exists: false, metadata: None, link_target: None };
    assert_eq!(abs.plan_link(&entry, true, "/cwd", &none).unwrap().link_target, "/dots/m/x");
    assert_eq!(rel.plan_link(&entry, true, "/cwd", &none).unwrap().link_target, "../../../dots/m/x");
    let entry = abs.process_entry("m", "dots/m", "/home/u/.config", "x").unwrap();
    assert_eq!(abs.plan_link(&entry, true, "/cwd", &none).unwrap().link_target, "/cwd/dots/m/x");
}

#[test]
fn linker_options_reach_the_plan() {
    let entry = linker(false, false, false).process_entry("m", "/dots/m", "/home/u", "f").unwrap();
    let file = DestinationProbe {
        exists: true,
        metadata: Some(dotlinker::symlink::EntryKind::Other),
        link_target: None,
    };
    let p = linker(false, true, true).plan_link(&entry, true, "/cwd", &file).unwrap();
    assert!(matches!(p.outcome, LinkOutcome::Replaced));
    assert!(p.actions.is_empty());
    let p = linker(false, false, false).plan_link(&entry, true, "/cwd", &file).unwrap();
    assert!(matches!(p.outcome, LinkOutcome::SkippedExisting));
}

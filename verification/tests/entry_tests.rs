use dotlinker::entry::{parse_entry, LinkEntry};
use std::path::PathBuf;

fn parse(entry: &str, module_name: &str, module_dir: &PathBuf, base_dir: &PathBuf) -> LinkEntry {
    parse_entry(entry, module_name, module_dir.to_str().unwrap(), base_dir.to_str().unwrap()).unwrap()
}

#[test]
fn test_parse_simple_entry() {
    let module_dir = PathBuf::from("/dotfiles/hypr");
    let base_dir = PathBuf::from("/home/user/.config");
    let entry = parse("hyprland.conf", "hypr", &module_dir, &base_dir);

    assert_eq!(PathBuf::from(&entry.source), PathBuf::from("/dotfiles/hypr/hyprland.conf"));
    assert_eq!(
        PathBuf::from(&entry.destination),
        PathBuf::from("/home/user/.config/hyprland.conf")
    );
}

#[test]
fn test_parse_entry_with_dollar() {
    let module_dir = PathBuf::from("/dotfiles/hypr");
    let base_dir = PathBuf::from("/home/user/.config");
    let entry = parse("$", "hypr", &module_dir, &base_dir);

    assert_eq!(PathBuf::from(&entry.source), PathBuf::from("/dotfiles/hypr/hypr"));
    assert_eq!(PathBuf::from(&entry.destination), PathBuf::from("/home/user/.config/hypr"));
}

#[test]
fn test_parse_mapped_entry() {
    let module_dir = PathBuf::from("/dotfiles/hypr");
    let base_dir = PathBuf::from("/home/user/.config");
    let entry = parse("config:hypr.conf", "hypr", &module_dir, &base_dir);

    assert_eq!(PathBuf::from(&entry.source), PathBuf::from("/dotfiles/hypr/config"));
    assert_eq!(
        PathBuf::from(&entry.destination),
        PathBuf::from("/home/user/.config/hypr.conf")
    );
}

#[test]
fn test_parse_entry_strip_asterisk() {
    let module_dir = PathBuf::from("/dotfiles/hypr");
    let base_dir = PathBuf::from("/home/user/.config");
    let entry = parse("*special", "hypr", &module_dir, &base_dir);

    assert_eq!(PathBuf::from(&entry.source), PathBuf::from("/dotfiles/hypr/special"));
    assert_eq!(
        PathBuf::from(&entry.destination),
        PathBuf::from("/home/user/.config/special")
    );
}

// Entry syntax as the README describes it.

#[test]
fn entry_leading_colon_is_decorative() {
    let a = parse_entry(":.Xresources", "hypr", "/d/hypr", "/home/u").unwrap();
    let b = parse_entry(".Xresources", "hypr", "/d/hypr", "/home/u").unwrap();
    assert_eq!(a.source, "/d/hypr/.Xresources");
    assert_eq!(a.destination, "/home/u/.Xresources");
    assert_eq!(a.source, b.source);
    assert_eq!(a.destination, b.destination);
}

#[test]
fn entry_mapped_with_nested_paths() {
    let e = parse_entry(".docker/config.json:docker/config.json", "hypr", "/d/hypr", "/home/u").unwrap();
    assert_eq!(e.source, "/d/hypr/.docker/config.json");
    assert_eq!(e.destination, "/home/u/docker/config.json");
}

#[test]
fn entry_colon_prefix_then_mapping_splits_at_next_colon() {
    let e = parse_entry(":.foo:bar", "m", "/d/m", "/b").unwrap();
    assert_eq!(e.source, "/d/m/.foo");
    assert_eq!(e.destination, "/b/bar");
}

#[test]
fn entry_only_first_colon_splits() {
    let e = parse_entry("a:b:c", "m", "/d/m", "/b").unwrap();
    assert_eq!(e.source, "/d/m/a");
    assert_eq!(e.destination, "/b/b:c");
}

#[test]
fn entry_dollar_in_mapped_segments() {
    let e = parse_entry("$:hyprland", "hypr", "/d/hypr", "/b").unwrap();
    assert_eq!(e.source, "/d/hypr/hypr");
    assert_eq!(e.destination, "/b/hyprland");

    let e = parse_entry("$.conf:x/$rc", "nvim", "/d/nvim", "/b").unwrap();
    assert_eq!(e.source, "/d/nvim/nvim.conf");
    assert_eq!(e.destination, "/b/x/$rc");

    let e = parse_entry("src:$rc", "zsh", "/d/zsh", "/b").unwrap();
    assert_eq!(e.destination, "/b/zshrc");
}

#[test]
fn entry_dollar_module_name_is_inserted_literally() {
    let e = parse_entry("$:$.d", "a$1b", "/d/m", "/b").unwrap();
    assert_eq!(e.source, "/d/m/a$1b");
    assert_eq!(e.destination, "/b/a$1b.d");
    let e = parse_entry("x:$", "${name}", "/d/m", "/b").unwrap();
    assert_eq!(e.destination, "/b/${name}");
}

#[test]
fn entry_dollar_inside_simple_entry_is_kept() {
    let e = parse_entry("$rc", "zsh", "/d/zsh", "/b").unwrap();
    assert_eq!(e.source, "/d/zsh/$rc");
    assert_eq!(e.destination, "/b/$rc");
}

#[test]
fn entry_star_stripped_in_mapped_segments() {
    let e = parse_entry("*a:*b", "m", "/d/m", "/b").unwrap();
    assert_eq!(e.source, "/d/m/a");
    assert_eq!(e.destination, "/b/b");
}

#[test]
fn entry_only_one_star_is_stripped() {
    let e = parse_entry("**x", "m", "/d/m", "/b").unwrap();
    assert_eq!(e.source, "/d/m/*x");
}

#[test]
fn entry_absolute_name_replaces_directory() {
    let e = parse_entry("/etc/x", "m", "/d/m", "/b").unwrap();
    assert_eq!(e.source, "/etc/x");
    assert_eq!(e.destination, "/etc/x");
}

#[test]
fn entry_directory_with_trailing_slash_gets_no_extra_separator() {
    let e = parse_entry("x", "m", "/d/m/", "/b/").unwrap();
    assert_eq!(e.source, "/d/m/x");
    assert_eq!(e.destination, "/b/x");
}

#[test]
fn entry_empty_mapping_sides() {
    let e = parse_entry("::", "m", "/d/m", "/b").unwrap();
    assert_eq!(e.source, "/d/m/");
    assert_eq!(e.destination, "/b/");
}

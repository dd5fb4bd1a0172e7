//! The module file: which entries a module links into each base directory.

use crate::text::{i64_to_text, int_text, str_eq};
use crate::yaml::{load_documents, loaded_documents, node_values, YamlEntry, YamlNode, YamlValue};
use vstd::prelude::*;

verus! {

/// Entries of a module, per base directory; a section that is absent, not a
/// list, or holds no usable item is `None`.
#[derive(Debug)]
pub struct ModInfo {
    pub config_home: Option<Vec<String>>,
    pub home: Option<Vec<String>>,
    pub cache_home: Option<Vec<String>>,
    pub data_home: Option<Vec<String>>,
    pub local_bin: Option<Vec<String>>,
    pub local_dir: Option<Vec<String>>,
}

/// The mathematical content of a `ModInfo`.
pub struct ModInfoSpec {
    pub config_home: Option<Seq<Seq<char>>>,
    pub home: Option<Seq<Seq<char>>>,
    pub cache_home: Option<Seq<Seq<char>>>,
    pub data_home: Option<Seq<Seq<char>>>,
    pub local_bin: Option<Seq<Seq<char>>>,
    pub local_dir: Option<Seq<Seq<char>>>,
}

/// The key under which a module section was read.
#[derive(Debug, Clone, Copy, PartialEq, Eq)]
pub enum SectionKey {
    DotRs,
    ModInfo,
}

/// Why a module file could not be interpreted.
#[derive(Debug)]
pub enum ConfigError {
    /// The text is not valid YAML.
    InvalidYaml(saphyr::ScanError),
    /// The text holds no YAML document.
    EmptyDocument,
    /// The first document is not a mapping.
    RootNotMapping,
    /// The root mapping has neither a `dot_rs` nor a `mod_info` key.
    MissingSection,
    /// The module section, read under the given key, is not a mapping.
    SectionNotMapping(SectionKey),
}

/// The fixed description of an error; invalid YAML is described by the loader.
pub open spec fn config_error_text(e: ConfigError) -> Option<Seq<char>> {
    match e {
        ConfigError::InvalidYaml(_) => None,
        ConfigError::EmptyDocument => Some("YAML file is empty"@),
        ConfigError::RootNotMapping => Some("Root YAML node must be a mapping/hash"@),
        ConfigError::MissingSection => Some("Missing 'dot_rs' key in YAML"@),
        ConfigError::SectionNotMapping(SectionKey::DotRs) => Some("dot_rs must be a mapping/hash"@),
        ConfigError::SectionNotMapping(SectionKey::ModInfo) => Some("mod_info must be a mapping/hash"@),
    }
}

impl ConfigError {
    /// A description of the error; for invalid YAML it is followed by the
    /// loader's own description.
    pub fn message(&self) -> (r: String)
        ensures
            match self {
                ConfigError::InvalidYaml(_) => r@.len() >= 22 && r@.take(22) == "Failed to parse YAML: "@,
                _ => config_error_text(*self) == Some(r@),
            },
    {
        match self {
            ConfigError::InvalidYaml(e) => {
                let mut m = "Failed to parse YAML: ".to_owned();
                proof {
                    reveal_strlit("Failed to parse YAML: ");
                }
                let detail = e.to_string();
                m.append(detail.as_str());
                assert(m@.take(22) =~= "Failed to parse YAML: "@);
                m
            },
            ConfigError::EmptyDocument => "YAML file is empty".to_owned(),
            ConfigError::RootNotMapping => "Root YAML node must be a mapping/hash".to_owned(),
            ConfigError::MissingSection => "Missing 'dot_rs' key in YAML".to_owned(),
            ConfigError::SectionNotMapping(SectionKey::DotRs) => "dot_rs must be a mapping/hash".to_owned(),
            ConfigError::SectionNotMapping(SectionKey::ModInfo) => "mod_info must be a mapping/hash".to_owned(),
        }
    }
}

/// The view of a list of strings.
pub open spec fn texts_view(v: Seq<String>) -> Seq<Seq<char>> {
    Seq::new(v.len(), |i: int| v[i]@)
}

/// The view of an optional list of strings.
pub open spec fn opt_texts_view(o: Option<Vec<String>>) -> Option<Seq<Seq<char>>> {
    match o {
        Some(v) => Some(texts_view(v@)),
        None => None,
    }
}

impl ModInfo {
    pub open spec fn view(&self) -> ModInfoSpec {
        ModInfoSpec {
            config_home: opt_texts_view(self.config_home),
            home: opt_texts_view(self.home),
            cache_home: opt_texts_view(self.cache_home),
            data_home: opt_texts_view(self.data_home),
            local_bin: opt_texts_view(self.local_bin),
            local_dir: opt_texts_view(self.local_dir),
        }
    }
}

/// The value of the first entry of `entries` whose key is the string `key`.
pub open spec fn mapping_get(entries: Seq<(YamlValue, YamlValue)>, key: Seq<char>) -> Option<
    YamlValue,
>
    decreases entries.len(),
{
    if entries.len() == 0 {
        None
    } else if entries[0].0 == YamlValue::Str(key) {
        Some(entries[0].1)
    } else {
        mapping_get(entries.skip(1), key)
    }
}

/// The value under the string key `key` when `node` is a mapping.
pub open spec fn node_get(node: YamlValue, key: Seq<char>) -> Option<YamlValue> {
    match node {
        YamlValue::Mapping(entries) => mapping_get(entries, key),
        _ => None,
    }
}

/// The text of a list item: strings as they are, integers in decimal, booleans
/// as `true` or `false`; others have none.
pub open spec fn item_text(item: YamlValue) -> Option<Seq<char>> {
    match item {
        YamlValue::Str(s) => Some(s),
        YamlValue::Integer(i) => Some(int_text(i)),
        YamlValue::Boolean(b) => Some(if b { "true"@ } else { "false"@ }),
        _ => None,
    }
}

/// The texts of the items that have one, in order.
pub open spec fn item_texts(items: Seq<YamlValue>) -> Seq<Seq<char>>
    decreases items.len(),
{
    if items.len() == 0 {
        seq![]
    } else {
        let rest = item_texts(items.drop_last());
        match item_text(items.last()) {
            Some(t) => rest.push(t),
            None => rest,
        }
    }
}

/// A section's entries: the item texts of a list, or `None` when the node is
/// missing, not a list, or yields no text.
pub open spec fn section_entries(node: Option<YamlValue>) -> Option<Seq<Seq<char>>> {
    match node {
        Some(YamlValue::Sequence(items)) => {
            let t = item_texts(items);
            if t.len() == 0 {
                None
            } else {
                Some(t)
            }
        },
        _ => None,
    }
}

/// The six sections read from a module section mapping.
pub open spec fn mod_info_of(section: YamlValue) -> ModInfoSpec {
    ModInfoSpec {
        config_home: section_entries(node_get(section, "config_home"@)),
        home: section_entries(node_get(section, "home"@)),
        cache_home: section_entries(node_get(section, "cache_home"@)),
        data_home: section_entries(node_get(section, "data_home"@)),
        local_bin: section_entries(node_get(section, "local_bin"@)),
        local_dir: section_entries(node_get(section, "local_dir"@)),
    }
}

/// The module section of a root mapping, with the key it is under: `dot_rs`,
/// or else `mod_info`.
pub open spec fn module_section(root: YamlValue) -> Option<(SectionKey, YamlValue)> {
    match node_get(root, "dot_rs"@) {
        Some(v) => Some((SectionKey::DotRs, v)),
        None => match node_get(root, "mod_info"@) {
            Some(v) => Some((SectionKey::ModInfo, v)),
            None => None,
        },
    }
}

/// How the loaded documents of a module file are read.
pub open spec fn interpret_documents(docs: Seq<YamlValue>) -> Result<ModInfoSpec, ConfigError> {
    if docs.len() == 0 {
        Err(ConfigError::EmptyDocument)
    } else if !(docs[0] is Mapping) {
        Err(ConfigError::RootNotMapping)
    } else {
        match module_section(docs[0]) {
            None => Err(ConfigError::MissingSection),
            Some((key, section)) => if section is Mapping {
                Ok(mod_info_of(section))
            } else {
                Err(ConfigError::SectionNotMapping(key))
            },
        }
    }
}

/// The value under the string key `key` in `entries`: the first entry whose key
/// is that string.
fn mapping_lookup<'a>(entries: &'a Vec<YamlEntry>, key: &str) -> (r: Option<&'a YamlNode>)
    ensures
        match r {
            Some(n) => mapping_get(YamlNode::Mapping(*entries).value()->Mapping_0, key@) == Some(n.value()),
            None => mapping_get(YamlNode::Mapping(*entries).value()->Mapping_0, key@) is None,
        },
{
    let ghost es = YamlNode::Mapping(*entries).value()->Mapping_0;
    assert(es.skip(0) =~= es);
    let mut i: usize = 0;
    while i < entries.len()
        invariant
            es == YamlNode::Mapping(*entries).value()->Mapping_0,
            es.len() == entries@.len(),
            i <= entries@.len(),
            mapping_get(es, key@) == mapping_get(es.skip(i as int), key@),
        decreases entries@.len() - i,
    {
        assert(es[i as int] == (entries@[i as int].key.value(), entries@[i as int].value.value()));
        let hit = match &entries[i].key {
            YamlNode::Str(s) => str_eq(s.as_str(), key),
            _ => false,
        };
        assert(es.skip(i as int)[0] == es[i as int]);
        if hit {
            return Some(&entries[i].value);
        }
        assert(es.skip(i as int).skip(1) =~= es.skip(i + 1));
        i = i + 1;
    }
    None
}

/// The value under the string key `key` when `node` is a mapping.
fn node_lookup<'a>(node: &'a YamlNode, key: &str) -> (r: Option<&'a YamlNode>)
    ensures
        match r {
            Some(n) => node_get(node.value(), key@) == Some(n.value()),
            None => node_get(node.value(), key@) is None,
        },
{
    match node {
        YamlNode::Mapping(entries) => mapping_lookup(entries, key),
        _ => None,
    }
}

impl ModInfo {
    /// The text of a list item: strings as they are, integers in decimal,
    /// booleans as `true` or `false`.
    fn yaml_to_string(item: &YamlNode) -> (r: Option<String>)
        ensures
            match r {
                Some(s) => item_text(item.value()) == Some(s@),
                None => item_text(item.value()) is None,
            },
    {
        match item {
            YamlNode::Str(s) => Some(s.clone()),
            YamlNode::Integer(i) => Some(i64_to_text(*i)),
            YamlNode::Boolean(b) => {
                proof {
                    reveal_strlit("true");
                    reveal_strlit("false");
                }
                if *b {
                    Some("true".to_owned())
                } else {
                    Some("false".to_owned())
                }
            },
            _ => None,
        }
    }

    /// The entries of a list node: the texts of its items, or `None` when the
    /// node is not a list or no item has a text.
    fn parse_string_array(node: &YamlNode) -> (r: Option<Vec<String>>)
        ensures
            opt_texts_view(r) == section_entries(Some(node.value())),
    {
        match node {
            YamlNode::Sequence(items) => {
                let ghost vals = node.value()->Sequence_0;
                let mut result: Vec<String> = Vec::new();
                let mut i: usize = 0;
                while i < items.len()
                    invariant
                        vals == node.value()->Sequence_0,
                        node == YamlNode::Sequence(*items),
                        vals.len() == items@.len(),
                        i <= items@.len(),
                        texts_view(result@) == item_texts(vals.take(i as int)),
                    decreases items@.len() - i,
                {
                    assert(vals[i as int] == items@[i as int].value());
                    assert(vals.take(i + 1).drop_last() =~= vals.take(i as int));
                    assert(vals.take(i + 1).last() == vals[i as int]);
                    let t = Self::yaml_to_string(&items[i]);
                    match t {
                        Some(s) => {
                            result.push(s);
                        },
                        None => {},
                    }
                    assert(texts_view(result@) =~= item_texts(vals.take(i + 1)));
                    i = i + 1;
                }
                assert(vals.take(vals.len() as int) =~= vals);
                if result.len() == 0 {
                    None
                } else {
                    Some(result)
                }
            },
            _ => None,
        }
    }

    /// The entries of the section under `key` of a mapping node.
    fn parse_string_array_by_key(node: &YamlNode, key: &str) -> (r: Option<Vec<String>>)
        ensures
            opt_texts_view(r) == section_entries(node_get(node.value(), key@)),
    {
        match node_lookup(node, key) {
            Some(value) => Self::parse_string_array(value),
            None => None,
        }
    }

    /// Reads the six sections of a `mod_info` section node.
    pub fn from_yaml(node: &YamlNode) -> (r: Result<ModInfo, ConfigError>)
        ensures
            match r {
                Ok(m) => node.value() is Mapping && m@ == mod_info_of(node.value()),
                Err(e) => !(node.value() is Mapping) && e == ConfigError::SectionNotMapping(SectionKey::ModInfo),
            },
    {
        Self::from_section(node, SectionKey::ModInfo)
    }

    /// Reads the six sections of a module section node read under `key`.
    fn from_section(node: &YamlNode, key: SectionKey) -> (r: Result<ModInfo, ConfigError>)
        ensures
            match r {
                Ok(m) => node.value() is Mapping && m@ == mod_info_of(node.value()),
                Err(e) => !(node.value() is Mapping) && e == ConfigError::SectionNotMapping(key),
            },
    {
        match node {
            YamlNode::Mapping(_) => {},
            _ => {
                return Err(ConfigError::SectionNotMapping(key));
            },
        }
        let home = Self::parse_string_array_by_key(node, "home");
        let config_home = Self::parse_string_array_by_key(node, "config_home");
        let cache_home = Self::parse_string_array_by_key(node, "cache_home");
        let data_home = Self::parse_string_array_by_key(node, "data_home");
        let local_bin = Self::parse_string_array_by_key(node, "local_bin");
        let local_dir = Self::parse_string_array_by_key(node, "local_dir");
        Ok(ModInfo { config_home, home, cache_home, data_home, local_bin, local_dir })
    }
}

/// Reads a module's entries from the loaded documents of its module file.
pub fn parse_mod_documents(docs: &Vec<YamlNode>) -> (r: Result<ModInfo, ConfigError>)
    ensures
        match r {
            Ok(m) => interpret_documents(node_values(docs@)) == Ok::<ModInfoSpec, ConfigError>(m@),
            Err(e) => interpret_documents(node_values(docs@)) == Err::<ModInfoSpec, ConfigError>(e),
        },
{
    let ghost vals = node_values(docs@);
    if docs.len() == 0 {
        return Err(ConfigError::EmptyDocument);
    }
    let doc = &docs[0];
    assert(vals[0] == doc.value());
    match doc {
        YamlNode::Mapping(_) => {},
        _ => {
            return Err(ConfigError::RootNotMapping);
        },
    }
    let (key, section) = match node_lookup(doc, "dot_rs") {
        Some(s) => (SectionKey::DotRs, s),
        None => match node_lookup(doc, "mod_info") {
            Some(s) => (SectionKey::ModInfo, s),
            None => {
                return Err(ConfigError::MissingSection);
            },
        },
    };
    ModInfo::from_section(section, key)
}

/// Reads a module's entries from the text of its module file.
pub fn parse_mod_yaml(text: &str) -> (r: Result<ModInfo, ConfigError>)
    ensures
        (r matches Err(ConfigError::InvalidYaml(_))) <==> loaded_documents(text@) is None,
        loaded_documents(text@) matches Some(docs) ==> match r {
            Ok(m) => interpret_documents(docs) == Ok::<ModInfoSpec, ConfigError>(m@),
            Err(e) => interpret_documents(docs) == Err::<ModInfoSpec, ConfigError>(e),
        },
{
    match load_documents(text) {
        Ok(docs) => parse_mod_documents(&docs),
        Err(e) => Err(ConfigError::InvalidYaml(e)),
    }
}

} // verus!

//! The linker: which links a module asks for, resolved against its directory
//! and the base directories.

use crate::config::{
    config_error_text, interpret_documents, opt_texts_view, parse_mod_yaml, texts_view, ConfigError, ModInfoSpec,
    SectionKey,
};
use crate::entry::{parse_entry, resolve_entry, EntryError, LinkEntry};
use crate::path::{
    base_dir_entries, join_path, lemma_base_dir_entries_get, pairs_get, path_join, BaseDirs,
};
use crate::symlink::{link_plan_of, plan_matches, plan_symlink_now, DestinationProbe, LinkError, LinkPlan};
use crate::yaml::loaded_documents;
use vstd::prelude::*;

verus! {

/// Why a module could not be processed.
#[derive(Debug)]
pub enum LinkerError {
    /// The home directory could not be determined.
    NoHomeDirectory,
    /// The module directory does not exist.
    ModuleDirMissing(String),
    /// The module has no configuration file.
    ConfigMissing(String),
    /// The configuration file exists but could not be read.
    ConfigUnreadable(String),
    /// The configuration file could not be interpreted.
    Config(ConfigError),
    /// A section names no known base directory.
    UnknownBaseDir(String),
    /// An entry could not be resolved.
    Entry(EntryError),
}

/// `prefix` followed by `rest`.
fn concat(prefix: &str, rest: &str) -> (r: String)
    ensures
        r@ == prefix@ + rest@,
{
    let mut m = prefix.to_owned();
    m.append(rest);
    m
}

impl LinkerError {
    /// A description of the error, naming the path or key concerned.
    pub fn message(&self) -> (r: String)
        ensures
            match self {
                LinkerError::NoHomeDirectory => r@ == "Could not determine home directory"@,
                LinkerError::ModuleDirMissing(p) => r@ == "Module directory does not exist: "@ + p@,
                LinkerError::ConfigMissing(p) => r@ == "Module configuration not found: "@ + p@,
                LinkerError::ConfigUnreadable(p) => r@ == "Failed to read YAML file: "@ + p@,
                LinkerError::Config(c) => match config_error_text(*c) {
                    Some(t) => r@ == t,
                    None => r@.len() >= 22 && r@.take(22) == "Failed to parse YAML: "@,
                },
                LinkerError::UnknownBaseDir(k) => r@ == "Unknown base directory: "@ + k@,
                LinkerError::Entry(_) => r@ == "Invalid mapped entry format"@,
            },
    {
        match self {
            LinkerError::NoHomeDirectory => "Could not determine home directory".to_owned(),
            LinkerError::ModuleDirMissing(p) => concat("Module directory does not exist: ", p.as_str()),
            LinkerError::ConfigMissing(p) => concat("Module configuration not found: ", p.as_str()),
            LinkerError::ConfigUnreadable(p) => concat("Failed to read YAML file: ", p.as_str()),
            LinkerError::Config(c) => c.message(),
            LinkerError::UnknownBaseDir(k) => concat("Unknown base directory: ", k.as_str()),
            LinkerError::Entry(_) => "Invalid mapped entry format".to_owned(),
        }
    }
}

/// The kind of a `ConfigError`.
pub enum ConfigFault {
    InvalidYaml,
    EmptyDocument,
    RootNotMapping,
    MissingSection,
    SectionNotMapping(SectionKey),
}

pub open spec fn config_fault(e: ConfigError) -> ConfigFault {
    match e {
        ConfigError::InvalidYaml(_) => ConfigFault::InvalidYaml,
        ConfigError::EmptyDocument => ConfigFault::EmptyDocument,
        ConfigError::RootNotMapping => ConfigFault::RootNotMapping,
        ConfigError::MissingSection => ConfigFault::MissingSection,
        ConfigError::SectionNotMapping(k) => ConfigFault::SectionNotMapping(k),
    }
}

/// The mathematical value of a `LinkerError`.
pub enum Failure {
    NoHomeDirectory,
    ModuleDirMissing(Seq<char>),
    ConfigMissing(Seq<char>),
    ConfigUnreadable(Seq<char>),
    Config(ConfigFault),
    UnknownBaseDir(Seq<char>),
    Entry(EntryError),
}

impl LinkerError {
    pub open spec fn view(&self) -> Failure {
        match self {
            LinkerError::NoHomeDirectory => Failure::NoHomeDirectory,
            LinkerError::ModuleDirMissing(p) => Failure::ModuleDirMissing(p@),
            LinkerError::ConfigMissing(p) => Failure::ConfigMissing(p@),
            LinkerError::ConfigUnreadable(p) => Failure::ConfigUnreadable(p@),
            LinkerError::Config(c) => Failure::Config(config_fault(*c)),
            LinkerError::UnknownBaseDir(k) => Failure::UnknownBaseDir(k@),
            LinkerError::Entry(e) => Failure::Entry(*e),
        }
    }
}

/// What was found of one candidate configuration file.
#[derive(Debug)]
pub enum ConfigFile {
    /// There is no such file.
    Missing,
    /// The file exists but could not be read.
    Unreadable,
    /// The text of the file.
    Text(String),
}

/// The mathematical value of a `ConfigFile`.
pub enum ConfigFileState {
    Missing,
    Unreadable,
    Text(Seq<char>),
}

impl ConfigFile {
    pub open spec fn view(&self) -> ConfigFileState {
        match self {
            ConfigFile::Missing => ConfigFileState::Missing,
            ConfigFile::Unreadable => ConfigFileState::Unreadable,
            ConfigFile::Text(t) => ConfigFileState::Text(t@),
        }
    }
}

/// What the filesystem shows of a module: whether its directory exists, and its
/// configuration files `mod.yaml` and `mod.yml`.
#[derive(Debug)]
pub struct ModuleProbe {
    pub module_dir_exists: bool,
    pub mod_yaml: ConfigFile,
    pub mod_yml: ConfigFile,
}

/// One entry of a module, resolved.
#[derive(Debug)]
pub struct PlannedLink {
    /// The entry as written in the module file.
    pub entry: String,
    /// Its source and destination.
    pub link: LinkEntry,
}

impl PlannedLink {
    pub open spec fn view(&self) -> (Seq<char>, (Seq<char>, Seq<char>)) {
        (self.entry@, self.link@)
    }
}

/// The values of a list of resolved entries.
pub open spec fn planned_view(v: Seq<PlannedLink>) -> Seq<(Seq<char>, (Seq<char>, Seq<char>))> {
    Seq::new(v.len(), |i: int| v[i]@)
}

/// The links a module asks for, in order.
#[derive(Debug)]
pub struct ModulePlan {
    pub module_dir: String,
    pub links: Vec<PlannedLink>,
}

/// The text of the configuration file: `mod.yaml` when it exists, else `mod.yml`.
pub open spec fn chosen_config(mod_yaml: ConfigFileState, mod_yml: ConfigFileState, module_dir: Seq<char>) -> Result<
    Seq<char>,
    Failure,
> {
    match mod_yaml {
        ConfigFileState::Text(t) => Ok(t),
        ConfigFileState::Unreadable => Err(Failure::ConfigUnreadable(path_join(module_dir, "mod.yaml"@))),
        ConfigFileState::Missing => match mod_yml {
            ConfigFileState::Text(t) => Ok(t),
            ConfigFileState::Unreadable => Err(Failure::ConfigUnreadable(path_join(module_dir, "mod.yml"@))),
            ConfigFileState::Missing => Err(Failure::ConfigMissing(path_join(module_dir, "mod.yaml"@))),
        },
    }
}

/// The entries of one section resolved against its base directory; a section
/// that is absent or empty gives none.
pub open spec fn section_links(
    base_dirs: Seq<(Seq<char>, Seq<char>)>,
    key: Seq<char>,
    entries: Option<Seq<Seq<char>>>,
    module_name: Seq<char>,
    module_dir: Seq<char>,
) -> Result<Seq<(Seq<char>, (Seq<char>, Seq<char>))>, Failure> {
    match entries {
        None => Ok(seq![]),
        Some(es) => if es.len() == 0 {
            Ok(seq![])
        } else {
            match pairs_get(base_dirs, key) {
                None => Err(Failure::UnknownBaseDir(key)),
                Some(base) => Ok(
                    Seq::new(es.len(), |i: int| (es[i], resolve_entry(es[i], module_name, module_dir, base))),
                ),
            }
        },
    }
}

/// Two section results, one after the other.
pub open spec fn then_links(
    a: Result<Seq<(Seq<char>, (Seq<char>, Seq<char>))>, Failure>,
    b: Result<Seq<(Seq<char>, (Seq<char>, Seq<char>))>, Failure>,
) -> Result<Seq<(Seq<char>, (Seq<char>, Seq<char>))>, Failure> {
    match a {
        Err(f) => Err(f),
        Ok(x) => match b {
            Err(f) => Err(f),
            Ok(y) => Ok(x + y),
        },
    }
}

/// All links of a module, section by section: `config_home`, `home`,
/// `cache_home`, `data_home`, `local_bin`, `local_dir`.
pub open spec fn module_links(
    base_dirs: Seq<(Seq<char>, Seq<char>)>,
    info: ModInfoSpec,
    module_name: Seq<char>,
    module_dir: Seq<char>,
) -> Result<Seq<(Seq<char>, (Seq<char>, Seq<char>))>, Failure> {
    then_links(
        then_links(
            then_links(
                then_links(
                    then_links(
                        section_links(base_dirs, "config_home"@, info.config_home, module_name, module_dir),
                        section_links(base_dirs, "home"@, info.home, module_name, module_dir),
                    ),
                    section_links(base_dirs, "cache_home"@, info.cache_home, module_name, module_dir),
                ),
                section_links(base_dirs, "data_home"@, info.data_home, module_name, module_dir),
            ),
            section_links(base_dirs, "local_bin"@, info.local_bin, module_name, module_dir),
        ),
        section_links(base_dirs, "local_dir"@, info.local_dir, module_name, module_dir),
    )
}

/// How a module is processed: its directory must exist, its configuration file
/// must be there and readable and describe the module; then every entry of every
/// section is resolved.
pub open spec fn module_outcome(
    dotfiles_dir: Seq<char>,
    base_dirs: Seq<(Seq<char>, Seq<char>)>,
    module_name: Seq<char>,
    module_dir_exists: bool,
    mod_yaml: ConfigFileState,
    mod_yml: ConfigFileState,
) -> Result<Seq<(Seq<char>, (Seq<char>, Seq<char>))>, Failure> {
    let module_dir = path_join(dotfiles_dir, module_name);
    if !module_dir_exists {
        Err(Failure::ModuleDirMissing(module_dir))
    } else {
        match chosen_config(mod_yaml, mod_yml, module_dir) {
            Err(f) => Err(f),
            Ok(text) => match loaded_documents(text) {
                None => Err(Failure::Config(ConfigFault::InvalidYaml)),
                Some(docs) => match interpret_documents(docs) {
                    Err(c) => Err(Failure::Config(config_fault(c))),
                    Ok(info) => module_links(base_dirs, info, module_name, module_dir),
                },
            },
        }
    }
}

/// With the base directories of a home directory, every section resolves: a
/// module is never refused for naming an unknown base directory, and each
/// section's entries are resolved against the directory that its key names.
pub proof fn lemma_home_sections_resolve(
    home: Seq<char>,
    info: ModInfoSpec,
    module_name: Seq<char>,
    module_dir: Seq<char>,
)
    ensures
        module_links(base_dir_entries(home), info, module_name, module_dir) is Ok,
        pairs_get(base_dir_entries(home), "config_home"@) == Some(path_join(home, ".config"@)),
        pairs_get(base_dir_entries(home), "home"@) == Some(home),
        pairs_get(base_dir_entries(home), "cache_home"@) == Some(path_join(home, ".cache"@)),
        pairs_get(base_dir_entries(home), "data_home"@) == Some(path_join(home, ".local/share"@)),
        pairs_get(base_dir_entries(home), "local_bin"@) == Some(path_join(home, ".local/bin"@)),
        pairs_get(base_dir_entries(home), "local_dir"@) == Some(path_join(home, ".local"@)),
{
    reveal_strlit("home");
    reveal_strlit("cache_home");
    reveal_strlit("config_home");
    reveal_strlit("data_home");
    reveal_strlit("local_bin");
    reveal_strlit("local_dir");
    let keys = seq!["home"@, "cache_home"@, "config_home"@, "data_home"@, "local_bin"@, "local_dir"@];
    assert forall|i: int, j: int| 0 <= i < j < 6 implies keys[i] != keys[j] by {
        if keys[i].len() == keys[j].len() {
            assert(keys[i][0] != keys[j][0] || keys[i][6] != keys[j][6]);
        }
    }
    lemma_base_dir_entries_get(home, "config_home"@);
    lemma_base_dir_entries_get(home, "home"@);
    lemma_base_dir_entries_get(home, "cache_home"@);
    lemma_base_dir_entries_get(home, "data_home"@);
    lemma_base_dir_entries_get(home, "local_bin"@);
    lemma_base_dir_entries_get(home, "local_dir"@);
}

/// The entries of a section, each resolved against the directory `base`, in order.
pub open spec fn entries_under(
    entries: Option<Seq<Seq<char>>>,
    module_name: Seq<char>,
    module_dir: Seq<char>,
    base: Seq<char>,
) -> Seq<(Seq<char>, (Seq<char>, Seq<char>))> {
    match entries {
        None => seq![],
        Some(es) => Seq::new(es.len(), |i: int| (es[i], resolve_entry(es[i], module_name, module_dir, base))),
    }
}

/// A section whose key names a directory resolves its entries against it.
proof fn lemma_section_under(
    base_dirs: Seq<(Seq<char>, Seq<char>)>,
    key: Seq<char>,
    base: Seq<char>,
    entries: Option<Seq<Seq<char>>>,
    module_name: Seq<char>,
    module_dir: Seq<char>,
)
    requires
        pairs_get(base_dirs, key) == Some(base),
    ensures
        section_links(base_dirs, key, entries, module_name, module_dir) == Ok::<
            Seq<(Seq<char>, (Seq<char>, Seq<char>))>,
            Failure,
        >(entries_under(entries, module_name, module_dir, base)),
{
    match entries {
        Some(es) => if es.len() == 0 {
            assert(entries_under(entries, module_name, module_dir, base) =~= seq![]);
        },
        None => {},
    }
}

/// With the base directories of a home directory, the links of a module are
/// the entries of its sections in the order `config_home`, `home`,
/// `cache_home`, `data_home`, `local_bin`, `local_dir`, each resolved against
/// its own directory: `~/.config`, `~`, `~/.cache`, `~/.local/share`,
/// `~/.local/bin` and `~/.local`.
pub proof fn lemma_sections_use_their_own_directories(
    home: Seq<char>,
    info: ModInfoSpec,
    module_name: Seq<char>,
    module_dir: Seq<char>,
)
    ensures
        module_links(base_dir_entries(home), info, module_name, module_dir) == Ok::<
            Seq<(Seq<char>, (Seq<char>, Seq<char>))>,
            Failure,
        >(
            entries_under(info.config_home, module_name, module_dir, path_join(home, ".config"@))
                + entries_under(info.home, module_name, module_dir, home)
                + entries_under(info.cache_home, module_name, module_dir, path_join(home, ".cache"@))
                + entries_under(info.data_home, module_name, module_dir, path_join(home, ".local/share"@))
                + entries_under(info.local_bin, module_name, module_dir, path_join(home, ".local/bin"@))
                + entries_under(info.local_dir, module_name, module_dir, path_join(home, ".local"@)),
        ),
{
    let bd = base_dir_entries(home);
    lemma_home_sections_resolve(home, info, module_name, module_dir);
    lemma_section_under(bd, "config_home"@, path_join(home, ".config"@), info.config_home, module_name, module_dir);
    lemma_section_under(bd, "home"@, home, info.home, module_name, module_dir);
    lemma_section_under(bd, "cache_home"@, path_join(home, ".cache"@), info.cache_home, module_name, module_dir);
    lemma_section_under(bd, "data_home"@, path_join(home, ".local/share"@), info.data_home, module_name, module_dir);
    lemma_section_under(bd, "local_bin"@, path_join(home, ".local/bin"@), info.local_bin, module_name, module_dir);
    lemma_section_under(bd, "local_dir"@, path_join(home, ".local"@), info.local_dir, module_name, module_dir);
}

/// Create symbolic links for the modules of a dotfiles directory.
pub struct DotLinker {
    pub dotfiles_dir: String,
    pub base_dirs: BaseDirs,
    pub dry_run: bool,
    pub verbose: bool,
    /// The negation of the `relative` argument given to `new`: links are made
    /// relative exactly when this is `false`.
    pub relative: bool,
    pub force: bool,
}

impl DotLinker {
    /// Whether this linker makes relative links.
    pub open spec fn makes_relative_links(&self) -> bool {
        !self.relative
    }

    /// A linker over `dotfiles_dir` with the given base directories.
    pub fn with_base_dirs(
        dotfiles_dir: String,
        base_dirs: BaseDirs,
        dry_run: bool,
        verbose: bool,
        relative: bool,
        force: bool,
    ) -> (r: DotLinker)
        ensures
            r.dotfiles_dir@ == dotfiles_dir@,
            r.base_dirs@ == base_dirs@,
            r.dry_run == dry_run,
            r.verbose == verbose,
            r.relative == !relative,
            r.makes_relative_links() == relative,
            r.force == force,
    {
        DotLinker { dotfiles_dir, base_dirs, dry_run, verbose, relative: !relative, force }
    }

    /// Create a new DotLinker instance, with the base directories of the
    /// current user's home directory.
    pub fn new(dotfiles_dir: String, dry_run: bool, verbose: bool, relative: bool, force: bool) -> (r:
        Result<DotLinker, LinkerError>)
        ensures
            match r {
                Ok(l) => {
                    &&& l.dotfiles_dir@ == dotfiles_dir@
                    &&& exists|home: Seq<char>| l.base_dirs@ == base_dir_entries(home)
                    &&& l.dry_run == dry_run
                    &&& l.verbose == verbose
                    &&& l.relative == !relative
                    &&& l.makes_relative_links() == relative
                    &&& l.force == force
                },
                Err(e) => e is NoHomeDirectory,
            },
    {
        let base_dirs = BaseDirs::new()?;
        Ok(Self::with_base_dirs(dotfiles_dir, base_dirs, dry_run, verbose, relative, force))
    }

    /// The directory of a module: `<dotfiles_dir>/<module_name>`.
    pub fn module_dir(&self, module_name: &str) -> (r: String)
        ensures
            r@ == path_join(self.dotfiles_dir@, module_name@),
    {
        join_path(self.dotfiles_dir.as_str(), module_name)
    }

    /// Resolve a single entry (e.g., ":dunst" or "link:target") of a module.
    pub fn process_entry(&self, module_name: &str, module_dir: &str, base_dir: &str, entry_str: &str) -> (r:
        Result<LinkEntry, LinkerError>)
        ensures
            r matches Ok(le) && le@ == resolve_entry(entry_str@, module_name@, module_dir@, base_dir@),
    {
        match parse_entry(entry_str, module_name, module_dir, base_dir) {
            Ok(le) => Ok(le),
            Err(e) => Err(LinkerError::Entry(e)),
        }
    }

    /// Resolve the entries of one section against the base directory `base_key`.
    pub fn process_config_entries(
        &self,
        module_name: &str,
        module_dir: &str,
        base_key: &str,
        entries: &Option<Vec<String>>,
    ) -> (r: Result<Vec<PlannedLink>, LinkerError>)
        ensures
            match r {
                Ok(v) => section_links(self.base_dirs@, base_key@, opt_texts_view(*entries), module_name@, module_dir@)
                    == Ok::<Seq<(Seq<char>, (Seq<char>, Seq<char>))>, Failure>(planned_view(v@)),
                Err(e) => section_links(self.base_dirs@, base_key@, opt_texts_view(*entries), module_name@, module_dir@)
                    == Err::<Seq<(Seq<char>, (Seq<char>, Seq<char>))>, Failure>(e@),
            },
    {
        let mut out: Vec<PlannedLink> = Vec::new();
        let entries = match entries {
            Some(e) => e,
            None => {
                assert(planned_view(out@) =~= seq![]);
                return Ok(out);
            },
        };
        if entries.len() == 0 {
            assert(planned_view(out@) =~= seq![]);
            return Ok(out);
        }
        let base_dir = match self.base_dirs.get(base_key) {
            Some(b) => b,
            None => {
                return Err(LinkerError::UnknownBaseDir(base_key.to_owned()));
            },
        };
        let ghost es = texts_view(entries@);
        let mut i: usize = 0;
        while i < entries.len()
            invariant
                es == texts_view(entries@),
                i <= entries@.len(),
                out@.len() == i,
                forall|j: int| 0 <= j < i ==> #[trigger] out@[j]@ == (es[j], resolve_entry(es[j], module_name@, module_dir@, base_dir@)),
            decreases entries@.len() - i,
        {
            let link = self.process_entry(module_name, module_dir, base_dir.as_str(), entries[i].as_str());
            match link {
                Ok(le) => {
                    out.push(PlannedLink { entry: entries[i].clone(), link: le });
                },
                Err(_) => {},
            }
            i = i + 1;
        }
        assert(planned_view(out@) =~= Seq::new(
            es.len(),
            |j: int| (es[j], resolve_entry(es[j], module_name@, module_dir@, base_dir@)),
        ));
        Ok(out)
    }

    /// Append the resolved entries of one section to `acc`.
    fn extend_with_section(
        &self,
        acc: &mut Vec<PlannedLink>,
        module_name: &str,
        module_dir: &str,
        base_key: &str,
        entries: &Option<Vec<String>>,
    ) -> (r: Result<(), LinkerError>)
        ensures
            match r {
                Ok(_) => section_links(self.base_dirs@, base_key@, opt_texts_view(*entries), module_name@, module_dir@)
                    is Ok && planned_view(final(acc)@) == planned_view(old(acc)@) + section_links(
                    self.base_dirs@,
                    base_key@,
                    opt_texts_view(*entries),
                    module_name@,
                    module_dir@,
                )->Ok_0,
                Err(e) => section_links(self.base_dirs@, base_key@, opt_texts_view(*entries), module_name@, module_dir@)
                    == Err::<Seq<(Seq<char>, (Seq<char>, Seq<char>))>, Failure>(e@),
            },
    {
        match self.process_config_entries(module_name, module_dir, base_key, entries) {
            Ok(mut v) => {
                let ghost before = planned_view(acc@);
                let ghost added = planned_view(v@);
                acc.append(&mut v);
                assert(planned_view(acc@) =~= before + added);
                Ok(())
            },
            Err(e) => Err(e),
        }
    }

    /// Process a single module: given what the filesystem shows of it, the links
    /// it asks for, section by section.
    pub fn process_module(&self, module_name: &str, probe: &ModuleProbe) -> (r: Result<ModulePlan, LinkerError>)
        ensures
            match r {
                Ok(plan) => plan.module_dir@ == path_join(self.dotfiles_dir@, module_name@) && module_outcome(
                    self.dotfiles_dir@,
                    self.base_dirs@,
                    module_name@,
                    probe.module_dir_exists,
                    probe.mod_yaml@,
                    probe.mod_yml@,
                ) == Ok::<Seq<(Seq<char>, (Seq<char>, Seq<char>))>, Failure>(planned_view(plan.links@)),
                Err(e) => module_outcome(
                    self.dotfiles_dir@,
                    self.base_dirs@,
                    module_name@,
                    probe.module_dir_exists,
                    probe.mod_yaml@,
                    probe.mod_yml@,
                ) == Err::<Seq<(Seq<char>, (Seq<char>, Seq<char>))>, Failure>(e@),
            },
    {
        let module_dir = self.module_dir(module_name);
        if !probe.module_dir_exists {
            return Err(LinkerError::ModuleDirMissing(module_dir));
        }
        proof {
            reveal_strlit("mod.yaml");
            reveal_strlit("mod.yml");
        }
        let text = match &probe.mod_yaml {
            ConfigFile::Text(t) => t,
            ConfigFile::Unreadable => {
                return Err(LinkerError::ConfigUnreadable(join_path(module_dir.as_str(), "mod.yaml")));
            },
            ConfigFile::Missing => match &probe.mod_yml {
                ConfigFile::Text(t) => t,
                ConfigFile::Unreadable => {
                    return Err(LinkerError::ConfigUnreadable(join_path(module_dir.as_str(), "mod.yml")));
                },
                ConfigFile::Missing => {
                    return Err(LinkerError::ConfigMissing(join_path(module_dir.as_str(), "mod.yaml")));
                },
            },
        };
        let info = match parse_mod_yaml(text.as_str()) {
            Ok(i) => i,
            Err(e) => {
                return Err(LinkerError::Config(e));
            },
        };
        let ghost bd = self.base_dirs@;
        let ghost m = module_name@;
        let ghost md = module_dir@;
        let ghost iv = info@;
        let mut links: Vec<PlannedLink> = Vec::new();
        assert(planned_view(links@) =~= seq![]);
        let ghost s1 = section_links(bd, "config_home"@, iv.config_home, m, md);
        match self.extend_with_section(&mut links, module_name, module_dir.as_str(), "config_home", &info.config_home) {
            Ok(_) => {},
            Err(e) => {
                return Err(e);
            },
        }
        assert(planned_view(links@) =~= s1->Ok_0);
        let ghost s2 = then_links(s1, section_links(bd, "home"@, iv.home, m, md));
        match self.extend_with_section(&mut links, module_name, module_dir.as_str(), "home", &info.home) {
            Ok(_) => {},
            Err(e) => {
                return Err(e);
            },
        }
        assert(s2 == Ok::<Seq<(Seq<char>, (Seq<char>, Seq<char>))>, Failure>(planned_view(links@)));
        let ghost s3 = then_links(s2, section_links(bd, "cache_home"@, iv.cache_home, m, md));
        match self.extend_with_section(&mut links, module_name, module_dir.as_str(), "cache_home", &info.cache_home) {
            Ok(_) => {},
            Err(e) => {
                return Err(e);
            },
        }
        assert(s3 == Ok::<Seq<(Seq<char>, (Seq<char>, Seq<char>))>, Failure>(planned_view(links@)));
        let ghost s4 = then_links(s3, section_links(bd, "data_home"@, iv.data_home, m, md));
        match self.extend_with_section(&mut links, module_name, module_dir.as_str(), "data_home", &info.data_home) {
            Ok(_) => {},
            Err(e) => {
                return Err(e);
            },
        }
        assert(s4 == Ok::<Seq<(Seq<char>, (Seq<char>, Seq<char>))>, Failure>(planned_view(links@)));
        let ghost s5 = then_links(s4, section_links(bd, "local_bin"@, iv.local_bin, m, md));
        match self.extend_with_section(&mut links, module_name, module_dir.as_str(), "local_bin", &info.local_bin) {
            Ok(_) => {},
            Err(e) => {
                return Err(e);
            },
        }
        assert(s5 == Ok::<Seq<(Seq<char>, (Seq<char>, Seq<char>))>, Failure>(planned_view(links@)));
        match self.extend_with_section(&mut links, module_name, module_dir.as_str(), "local_dir", &info.local_dir) {
            Ok(_) => {},
            Err(e) => {
                return Err(e);
            },
        }
        Ok(ModulePlan { module_dir, links })
    }

    /// Decide what to do for one resolved link, given whether its source exists,
    /// the current directory, and what is at its destination, with this
    /// linker's options.
    pub fn plan_link(&self, link: &LinkEntry, source_exists: bool, cwd: &str, probe: &DestinationProbe) -> (r:
        Result<LinkPlan, LinkError>)
        ensures
            exists|timestamp: Seq<char>|
                plan_matches(
                    r,
                    #[trigger] link_plan_of(
                        source_exists,
                        link.source@,
                        link.destination@,
                        cwd@,
                        self.makes_relative_links(),
                        self.dry_run,
                        self.force,
                        probe.state(),
                        timestamp,
                    ),
                ),
    {
        let r = plan_symlink_now(
            source_exists,
            link.source.as_str(),
            link.destination.as_str(),
            cwd,
            !self.relative,
            self.dry_run,
            self.force,
            probe,
        );
        proof {
            let rel = !self.relative;
            let ts = choose|ts: Seq<char>|
                plan_matches(
                    r,
                    #[trigger] link_plan_of(
                        source_exists,
                        link.source@,
                        link.destination@,
                        cwd@,
                        rel,
                        self.dry_run,
                        self.force,
                        probe.state(),
                        ts,
                    ),
                );
            assert(plan_matches(
                r,
                link_plan_of(
                    source_exists,
                    link.source@,
                    link.destination@,
                    cwd@,
                    self.makes_relative_links(),
                    self.dry_run,
                    self.force,
                    probe.state(),
                    ts,
                ),
            ));
        }
        r
    }
}

} // verus!

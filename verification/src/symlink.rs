//! The symlink decision: what to do at a destination, given what is there.

use crate::path::{
    absolute_in, file_name_of, join_path, parent_of, path_file_name, path_join, path_parent,
    paths_equal, relative_path, relative_path_of, same_path,
};
use vstd::prelude::*;

verus! {

/// What `symlink_metadata` reports for an existing filesystem entry.
#[derive(Debug, Clone, Copy, PartialEq, Eq)]
pub enum EntryKind {
    Symlink,
    Directory,
    Other,
}

/// What the filesystem shows at a destination path.
#[derive(Debug)]
pub struct DestinationProbe {
    /// Whether the path exists, following symlinks.
    pub exists: bool,
    /// The kind of the entry itself (not followed), or `None` when it cannot be read.
    pub metadata: Option<EntryKind>,
    /// The target of the entry when it is a symlink, or `None` when it cannot be read.
    pub link_target: Option<String>,
}

/// Status of a destination path.
#[derive(Debug)]
pub enum DestinationStatus {
    NotExists,
    ExistingSymlink(String),
    ExistingFile,
    ExistingDirectory,
    BrokenSymlink,
}

/// The mathematical value of a `DestinationStatus`.
pub enum DestState {
    NotExists,
    Symlink(Seq<char>),
    File,
    Directory,
    Broken,
}

impl DestinationStatus {
    pub open spec fn view(&self) -> DestState {
        match self {
            DestinationStatus::NotExists => DestState::NotExists,
            DestinationStatus::ExistingSymlink(t) => DestState::Symlink(t@),
            DestinationStatus::ExistingFile => DestState::File,
            DestinationStatus::ExistingDirectory => DestState::Directory,
            DestinationStatus::BrokenSymlink => DestState::Broken,
        }
    }
}

/// Why a link could not be planned.
#[derive(Debug, Clone, Copy, PartialEq, Eq)]
pub enum LinkError {
    /// The source path does not exist.
    SourceMissing,
    /// The destination has no parent directory to compute a relative link from.
    NoParentDirectory,
    /// No relative path leads from the destination's directory to the source.
    RelativePathFailed,
    /// The metadata of an existing destination could not be read.
    MetadataFailed,
    /// The target of an existing symlink could not be read.
    ReadLinkFailed,
    /// The path to back up has no parent directory.
    BackupNoParent,
    /// The path to back up has no file name.
    BackupNoFileName,
}

impl LinkError {
    /// A description of the error.
    pub fn message(&self) -> (r: String)
        ensures
            match self {
                LinkError::SourceMissing => r@ == "Source path does not exist"@,
                LinkError::NoParentDirectory => r@ == "Destination has no parent directory"@,
                LinkError::RelativePathFailed => r@ == "Failed to compute relative path"@,
                LinkError::MetadataFailed => r@ == "Failed to get metadata"@,
                LinkError::ReadLinkFailed => r@ == "Failed to read symlink"@,
                LinkError::BackupNoParent => r@ == "Path has no parent"@,
                LinkError::BackupNoFileName => r@ == "Path has no filename"@,
            },
    {
        match self {
            LinkError::SourceMissing => "Source path does not exist".to_owned(),
            LinkError::NoParentDirectory => "Destination has no parent directory".to_owned(),
            LinkError::RelativePathFailed => "Failed to compute relative path".to_owned(),
            LinkError::MetadataFailed => "Failed to get metadata".to_owned(),
            LinkError::ReadLinkFailed => "Failed to read symlink".to_owned(),
            LinkError::BackupNoParent => "Path has no parent".to_owned(),
            LinkError::BackupNoFileName => "Path has no filename".to_owned(),
        }
    }
}

/// A change to the filesystem, performed in order.
#[derive(Debug)]
pub enum FsAction {
    /// Create a directory and its missing parents.
    CreateDirAll(String),
    /// Move `from` to `to`.
    Rename(String, String),
    /// Remove a file (or symlink).
    RemoveFile(String),
    /// Create a symlink at `link` pointing to `target`.
    Symlink(String, String),
}

/// The mathematical value of an `FsAction`.
pub enum Action {
    CreateDirAll(Seq<char>),
    Rename(Seq<char>, Seq<char>),
    RemoveFile(Seq<char>),
    Symlink(Seq<char>, Seq<char>),
}

impl FsAction {
    pub open spec fn view(&self) -> Action {
        match self {
            FsAction::CreateDirAll(p) => Action::CreateDirAll(p@),
            FsAction::Rename(a, b) => Action::Rename(a@, b@),
            FsAction::RemoveFile(p) => Action::RemoveFile(p@),
            FsAction::Symlink(t, l) => Action::Symlink(t@, l@),
        }
    }
}

/// The values of a list of actions.
pub open spec fn actions_view(v: Seq<FsAction>) -> Seq<Action> {
    Seq::new(v.len(), |i: int| v[i]@)
}

/// What the plan does at the destination.
#[derive(Debug)]
pub enum LinkOutcome {
    /// A new symlink is made where nothing (or a broken symlink) was.
    Created,
    /// The existing entry is backed up and replaced by the symlink.
    Replaced,
    /// The symlink is already there with the right target.
    AlreadyCorrect,
    /// A symlink with another target is there; it is left alone.
    SkippedOtherSymlink(String),
    /// A file or directory is there; it is left alone.
    SkippedExisting,
}

/// The mathematical value of a `LinkOutcome`.
pub enum Outcome {
    Created,
    Replaced,
    AlreadyCorrect,
    SkippedOtherSymlink(Seq<char>),
    SkippedExisting,
}

impl LinkOutcome {
    pub open spec fn view(&self) -> Outcome {
        match self {
            LinkOutcome::Created => Outcome::Created,
            LinkOutcome::Replaced => Outcome::Replaced,
            LinkOutcome::AlreadyCorrect => Outcome::AlreadyCorrect,
            LinkOutcome::SkippedOtherSymlink(t) => Outcome::SkippedOtherSymlink(t@),
            LinkOutcome::SkippedExisting => Outcome::SkippedExisting,
        }
    }
}

/// The decision for one link: what happens, what the link points to, and the
/// filesystem changes to perform (none in a dry run).
#[derive(Debug)]
pub struct LinkPlan {
    pub outcome: LinkOutcome,
    pub link_target: String,
    pub actions: Vec<FsAction>,
}

/// The path from the destination's parent directory to `source`.
pub open spec fn relative_target(source: Seq<char>, destination: Seq<char>) -> Result<Seq<char>, LinkError> {
    match parent_of(destination) {
        None => Err(LinkError::NoParentDirectory),
        Some(dir) => match relative_path_of(source, dir) {
            None => Err(LinkError::RelativePathFailed),
            Some(t) => Ok(t),
        },
    }
}

/// The target a link gets: for a relative link the path from the destination's
/// parent directory to `source`, otherwise the absolute path of `source`, taken
/// against the current directory `cwd`.
pub open spec fn link_target_of(
    source: Seq<char>,
    destination: Seq<char>,
    cwd: Seq<char>,
    use_relative: bool,
) -> Result<Seq<char>, LinkError> {
    if use_relative {
        relative_target(source, destination)
    } else {
        Ok(absolute_in(source, cwd))
    }
}

/// How a probe is classified.
pub open spec fn destination_state(
    exists: bool,
    metadata: Option<EntryKind>,
    link_target: Option<Seq<char>>,
) -> Result<DestState, LinkError> {
    if !exists {
        if metadata is Some {
            Ok(DestState::Broken)
        } else {
            Ok(DestState::NotExists)
        }
    } else {
        match metadata {
            None => Err(LinkError::MetadataFailed),
            Some(EntryKind::Symlink) => match link_target {
                Some(t) => Ok(DestState::Symlink(t)),
                None => Err(LinkError::ReadLinkFailed),
            },
            Some(EntryKind::Directory) => Ok(DestState::Directory),
            Some(EntryKind::Other) => Ok(DestState::File),
        }
    }
}

/// The mathematical value of a probe's link target.
pub open spec fn opt_text(o: Option<String>) -> Option<Seq<char>> {
    match o {
        Some(s) => Some(s@),
        None => None,
    }
}

impl DestinationProbe {
    pub open spec fn state(&self) -> Result<DestState, LinkError> {
        destination_state(self.exists, self.metadata, opt_text(self.link_target))
    }
}

/// Where a path with parent directory `parent` and final component `name` is
/// backed up: `<parent>/_dot_backup/<name>_<timestamp>`; gives the backup
/// directory and the backup path.
pub open spec fn backup_location_from(
    parent: Option<Seq<char>>,
    name: Option<Seq<char>>,
    timestamp: Seq<char>,
) -> Result<(Seq<char>, Seq<char>), LinkError> {
    match parent {
        None => Err(LinkError::BackupNoParent),
        Some(dir) => {
            let backup_dir = path_join(dir, "_dot_backup"@);
            match name {
                None => Err(LinkError::BackupNoFileName),
                Some(n) => Ok((backup_dir, path_join(backup_dir, n + seq!['_'] + timestamp))),
            }
        },
    }
}

/// Where `path` is backed up: next to it, under its own parent and file name.
pub open spec fn backup_location(path: Seq<char>, timestamp: Seq<char>) -> Result<
    (Seq<char>, Seq<char>),
    LinkError,
> {
    backup_location_from(parent_of(path), file_name_of(path), timestamp)
}

/// Back up `destination`, then link it.
pub open spec fn replace_steps(destination: Seq<char>, target: Seq<char>, timestamp: Seq<char>) -> Result<
    (Outcome, Seq<char>, Seq<Action>),
    LinkError,
> {
    match backup_location(destination, timestamp) {
        Err(e) => Err(e),
        Ok((dir, backup)) => Ok(
            (
                Outcome::Replaced,
                target,
                seq![
                    Action::CreateDirAll(dir),
                    Action::Rename(destination, backup),
                    Action::Symlink(target, destination),
                ],
            ),
        ),
    }
}

/// The decision for one link, with every step it takes:
/// - a missing source is an error;
/// - nothing at the destination: create its parent directories, then the link;
/// - the right symlink already (its target the same path, component by
///   component): nothing to do;
/// - another symlink, a file or a directory: left alone, or with `force` backed
///   up and replaced;
/// - a broken symlink: removed, then linked.
pub open spec fn link_decision(
    source_exists: bool,
    source: Seq<char>,
    destination: Seq<char>,
    cwd: Seq<char>,
    use_relative: bool,
    force: bool,
    state: Result<DestState, LinkError>,
    timestamp: Seq<char>,
) -> Result<(Outcome, Seq<char>, Seq<Action>), LinkError> {
    if !source_exists {
        Err(LinkError::SourceMissing)
    } else {
        match link_target_of(source, destination, cwd, use_relative) {
            Err(e) => Err(e),
            Ok(target) => match state {
                Err(e) => Err(e),
                Ok(DestState::NotExists) => {
                    let mkdir = match parent_of(destination) {
                        Some(dir) => seq![Action::CreateDirAll(dir)],
                        None => seq![],
                    };
                    Ok((Outcome::Created, target, mkdir.push(Action::Symlink(target, destination))))
                },
                Ok(DestState::Symlink(found)) => if found == target || same_path(found, target) {
                    Ok((Outcome::AlreadyCorrect, target, seq![]))
                } else if force {
                    replace_steps(destination, target, timestamp)
                } else {
                    Ok((Outcome::SkippedOtherSymlink(found), target, seq![]))
                },
                Ok(DestState::File) | Ok(DestState::Directory) => if force {
                    replace_steps(destination, target, timestamp)
                } else {
                    Ok((Outcome::SkippedExisting, target, seq![]))
                },
                Ok(DestState::Broken) => Ok(
                    (
                        Outcome::Created,
                        target,
                        seq![Action::RemoveFile(destination), Action::Symlink(target, destination)],
                    ),
                ),
            },
        }
    }
}

/// The plan for one link: the decision, with its steps kept only outside a dry run.
pub open spec fn link_plan_of(
    source_exists: bool,
    source: Seq<char>,
    destination: Seq<char>,
    cwd: Seq<char>,
    use_relative: bool,
    dry_run: bool,
    force: bool,
    state: Result<DestState, LinkError>,
    timestamp: Seq<char>,
) -> Result<(Outcome, Seq<char>, Seq<Action>), LinkError> {
    match link_decision(source_exists, source, destination, cwd, use_relative, force, state, timestamp) {
        Err(e) => Err(e),
        Ok((o, t, steps)) => Ok((o, t, if dry_run { seq![] } else { steps })),
    }
}

impl LinkPlan {
    pub open spec fn view(&self) -> (Outcome, Seq<char>, Seq<Action>) {
        (self.outcome@, self.link_target@, actions_view(self.actions@))
    }
}

/// `r` is the plan (or the error) that `expected` describes.
pub open spec fn plan_matches(
    r: Result<LinkPlan, LinkError>,
    expected: Result<(Outcome, Seq<char>, Seq<Action>), LinkError>,
) -> bool {
    match r {
        Ok(plan) => expected == Ok::<(Outcome, Seq<char>, Seq<Action>), LinkError>(plan@),
        Err(e) => expected == Err::<(Outcome, Seq<char>, Seq<Action>), LinkError>(e),
    }
}

/// A destination that does not exist, following links, is never taken for a
/// live symlink: with an entry of its own (a symlink whose target is gone) it is
/// a broken symlink, whatever that target reads; without one it is missing. Only
/// an existing destination is classified as a symlink, and then with the target
/// that was read.
pub proof fn lemma_missing_destination_classified(
    exists: bool,
    metadata: Option<EntryKind>,
    link_target: Option<Seq<char>>,
)
    ensures
        !exists && metadata is Some ==> destination_state(exists, metadata, link_target) == Ok::<DestState, LinkError>(
            DestState::Broken,
        ),
        !exists && metadata is None ==> destination_state(exists, metadata, link_target) == Ok::<
            DestState,
            LinkError,
        >(DestState::NotExists),
        destination_state(exists, metadata, link_target) matches Ok(DestState::Symlink(t)) ==> exists
            && metadata == Some(EntryKind::Symlink) && link_target == Some(t),
{
}

/// A broken symlink at the destination is removed and replaced by the link,
/// with or without `force`.
pub proof fn lemma_broken_link_is_replaced(
    source: Seq<char>,
    destination: Seq<char>,
    cwd: Seq<char>,
    use_relative: bool,
    force: bool,
    target: Seq<char>,
    timestamp: Seq<char>,
)
    requires
        link_target_of(source, destination, cwd, use_relative) == Ok::<Seq<char>, LinkError>(target),
    ensures
        link_plan_of(true, source, destination, cwd, use_relative, false, force, Ok(DestState::Broken), timestamp)
            == Ok::<(Outcome, Seq<char>, Seq<Action>), LinkError>(
            (
                Outcome::Created,
                target,
                seq![Action::RemoveFile(destination), Action::Symlink(target, destination)],
            ),
        ),
{
}

/// An existing symlink counts as already right only when it points at the
/// computed target (the same text, or the same path component by component).
/// One that points at any other path is left alone and reported without
/// `force`, and with `force` is backed up next to the destination and replaced
/// by the link.
pub proof fn lemma_other_symlink_is_a_conflict(
    source: Seq<char>,
    destination: Seq<char>,
    cwd: Seq<char>,
    use_relative: bool,
    dry_run: bool,
    found: Seq<char>,
    target: Seq<char>,
    timestamp: Seq<char>,
)
    requires
        link_target_of(source, destination, cwd, use_relative) == Ok::<Seq<char>, LinkError>(target),
    ensures
        (found == target || same_path(found, target)) ==> forall|force: bool|
            #[trigger] link_plan_of(true, source, destination, cwd, use_relative, dry_run, force, Ok(DestState::Symlink(found)), timestamp)
                == Ok::<(Outcome, Seq<char>, Seq<Action>), LinkError>((Outcome::AlreadyCorrect, target, seq![])),
        !(found == target || same_path(found, target)) ==> link_plan_of(
            true,
            source,
            destination,
            cwd,
            use_relative,
            dry_run,
            false,
            Ok(DestState::Symlink(found)),
            timestamp,
        ) == Ok::<(Outcome, Seq<char>, Seq<Action>), LinkError>((Outcome::SkippedOtherSymlink(found), target, seq![])),
        !(found == target || same_path(found, target)) ==> link_plan_of(
            true,
            source,
            destination,
            cwd,
            use_relative,
            false,
            true,
            Ok(DestState::Symlink(found)),
            timestamp,
        ) == match backup_location(destination, timestamp) {
            Ok((dir, backup)) => Ok::<(Outcome, Seq<char>, Seq<Action>), LinkError>(
                (
                    Outcome::Replaced,
                    target,
                    seq![
                        Action::CreateDirAll(dir),
                        Action::Rename(destination, backup),
                        Action::Symlink(target, destination),
                    ],
                ),
            ),
            Err(e) => Err(e),
        },
{
}

/// A dry run changes nothing on disk: its plan has no actions.
pub proof fn lemma_dry_run_writes_nothing(
    source_exists: bool,
    source: Seq<char>,
    destination: Seq<char>,
    cwd: Seq<char>,
    use_relative: bool,
    force: bool,
    state: Result<DestState, LinkError>,
    timestamp: Seq<char>,
)
    ensures
        link_plan_of(source_exists, source, destination, cwd, use_relative, true, force, state, timestamp) matches Ok(
            (_, _, actions),
        ) ==> actions.len() == 0,
{
}

/// A dry run decides exactly as a real run does: same outcome, same link
/// target, same errors; only the actions are withheld.
pub proof fn lemma_dry_run_same_decision(
    source_exists: bool,
    source: Seq<char>,
    destination: Seq<char>,
    cwd: Seq<char>,
    use_relative: bool,
    force: bool,
    state: Result<DestState, LinkError>,
    timestamp: Seq<char>,
)
    ensures
        match (
            link_plan_of(source_exists, source, destination, cwd, use_relative, true, force, state, timestamp),
            link_plan_of(source_exists, source, destination, cwd, use_relative, false, force, state, timestamp),
        ) {
            (Ok((o1, t1, _)), Ok((o2, t2, _))) => o1 == o2 && t1 == t2,
            (Err(e1), Err(e2)) => e1 == e2,
            _ => false,
        },
{
}

/// `force` only matters when something else is in the way: with nothing at
/// the destination, a broken symlink, or the right symlink already, the plan
/// is the same with or without it.
pub proof fn lemma_force_only_for_conflicts(
    source_exists: bool,
    source: Seq<char>,
    destination: Seq<char>,
    cwd: Seq<char>,
    use_relative: bool,
    dry_run: bool,
    state: Result<DestState, LinkError>,
    timestamp: Seq<char>,
)
    requires
        match state {
            Ok(DestState::NotExists) | Ok(DestState::Broken) => true,
            Ok(DestState::Symlink(found)) => link_target_of(source, destination, cwd, use_relative) == Ok::<
                Seq<char>,
                LinkError,
            >(found),
            _ => false,
        },
    ensures
        link_plan_of(source_exists, source, destination, cwd, use_relative, dry_run, true, state, timestamp)
            == link_plan_of(source_exists, source, destination, cwd, use_relative, dry_run, false, state, timestamp),
{
}

/// Without `force` nothing in the way is touched: no backup is moved, and the
/// only removal is that of a broken symlink.
pub proof fn lemma_no_force_keeps_existing(
    source_exists: bool,
    source: Seq<char>,
    destination: Seq<char>,
    cwd: Seq<char>,
    use_relative: bool,
    dry_run: bool,
    state: Result<DestState, LinkError>,
    timestamp: Seq<char>,
    i: int,
)
    requires
        link_plan_of(source_exists, source, destination, cwd, use_relative, dry_run, false, state, timestamp) is Ok,
        0 <= i < link_plan_of(
            source_exists,
            source,
            destination,
            cwd,
            use_relative,
            dry_run,
            false,
            state,
            timestamp,
        )->Ok_0.2.len(),
    ensures
        !(link_plan_of(source_exists, source, destination, cwd, use_relative, dry_run, false, state, timestamp)->Ok_0.2[i] is Rename),
        link_plan_of(source_exists, source, destination, cwd, use_relative, dry_run, false, state, timestamp)->Ok_0.2[i] is RemoveFile
            ==> state == Ok::<DestState, LinkError>(DestState::Broken),
{
}

/// Every plan that changes the destination ends by linking it to the target;
/// for an absolute link that target is the source made absolute against the
/// current directory.
pub proof fn lemma_plan_ends_with_link(
    source_exists: bool,
    source: Seq<char>,
    destination: Seq<char>,
    cwd: Seq<char>,
    use_relative: bool,
    force: bool,
    state: Result<DestState, LinkError>,
    timestamp: Seq<char>,
)
    requires
        link_plan_of(source_exists, source, destination, cwd, use_relative, false, force, state, timestamp) matches Ok(
            (outcome, _, _),
        ) && (outcome is Created || outcome is Replaced),
    ensures
        ({
            let (_, target, actions) = link_plan_of(
                source_exists,
                source,
                destination,
                cwd,
                use_relative,
                false,
                force,
                state,
                timestamp,
            )->Ok_0;
            &&& actions.len() > 0
            &&& actions.last() == Action::Symlink(target, destination)
            &&& !use_relative ==> target == absolute_in(source, cwd)
        }),
{
}

/// Linking is idempotent: once the destination is a live symlink to the
/// target that a plan computed, planning again does nothing.
pub proof fn lemma_relink_is_noop(
    source: Seq<char>,
    destination: Seq<char>,
    cwd: Seq<char>,
    use_relative: bool,
    dry_run: bool,
    force: bool,
    state: Result<DestState, LinkError>,
    timestamp: Seq<char>,
    later_dry_run: bool,
    later_force: bool,
    later_timestamp: Seq<char>,
)
    requires
        link_plan_of(true, source, destination, cwd, use_relative, dry_run, force, state, timestamp) is Ok,
    ensures
        ({
            let target = link_plan_of(true, source, destination, cwd, use_relative, dry_run, force, state, timestamp)->Ok_0.1;
            link_plan_of(
                true,
                source,
                destination,
                cwd,
                use_relative,
                later_dry_run,
                later_force,
                destination_state(true, Some(EntryKind::Symlink), Some(target)),
                later_timestamp,
            ) == Ok::<(Outcome, Seq<char>, Seq<Action>), LinkError>((Outcome::AlreadyCorrect, target, seq![]))
        }),
{
}

/// The strftime format of the stamp that a backup's name carries: date and time
/// of day, `2024-01-02_03-04-05`.
pub open spec fn backup_stamp_format() -> Seq<char> {
    "%Y-%m-%d_%H-%M-%S"@
}

/// `chrono::Local::now().format(format)`, written out with `DelayedFormat::write_to`:
/// the local time in the strftime format `format`, or `None` when the format
/// holds an item chrono rejects. What time it is depends on the clock, so the
/// text is left unsaid; claimed only that the backup stamp format, whose items
/// are all valid, gives a text.
#[verifier::external_body]
fn local_timestamp(format: &str) -> (r: Option<String>)
    ensures
        format@ == backup_stamp_format() ==> r is Some,
{
    let mut out = String::new();
    match chrono::Local::now().format(format).write_to(&mut out) {
        Ok(()) => Some(out),
        Err(_) => None,
    }
}

/// Compute the relative path from the destination's parent to the source.
pub fn compute_relative_path(source: &str, destination: &str) -> (r: Result<String, LinkError>)
    ensures
        match r {
            Ok(t) => relative_target(source@, destination@) == Ok::<Seq<char>, LinkError>(t@),
            Err(e) => relative_target(source@, destination@) == Err::<Seq<char>, LinkError>(e),
        },
{
    let dest_parent = match path_parent(destination) {
        Some(p) => p,
        None => {
            return Err(LinkError::NoParentDirectory);
        },
    };
    match relative_path(source, dest_parent.as_str()) {
        Some(t) => Ok(t),
        None => Err(LinkError::RelativePathFailed),
    }
}

/// Classify what a probe shows at the destination.
pub fn check_destination(probe: &DestinationProbe) -> (r: Result<DestinationStatus, LinkError>)
    ensures
        match r {
            Ok(st) => probe.state() == Ok::<DestState, LinkError>(st@),
            Err(e) => probe.state() == Err::<DestState, LinkError>(e),
        },
{
    if !probe.exists {
        if probe.metadata.is_some() {
            return Ok(DestinationStatus::BrokenSymlink);
        }
        return Ok(DestinationStatus::NotExists);
    }
    match probe.metadata {
        None => Err(LinkError::MetadataFailed),
        Some(EntryKind::Symlink) => match &probe.link_target {
            Some(t) => Ok(DestinationStatus::ExistingSymlink(t.clone())),
            None => Err(LinkError::ReadLinkFailed),
        },
        Some(EntryKind::Directory) => Ok(DestinationStatus::ExistingDirectory),
        Some(EntryKind::Other) => Ok(DestinationStatus::ExistingFile),
    }
}

/// The steps that back up `path`, whose parent directory is `parent` and whose
/// final component is `file_name`, and take it out of the way: create the
/// backup directory, then move `path` there under a timestamped name.
pub fn backup_steps(path: &str, parent: Option<String>, file_name: Option<String>, timestamp: &str) -> (r:
    Result<Vec<FsAction>, LinkError>)
    ensures
        match r {
            Ok(steps) => backup_location_from(opt_text(parent), opt_text(file_name), timestamp@) matches Ok(
                (dir, backup),
            ) && actions_view(steps@) == seq![Action::CreateDirAll(dir), Action::Rename(path@, backup)],
            Err(e) => backup_location_from(opt_text(parent), opt_text(file_name), timestamp@) == Err::<
                (Seq<char>, Seq<char>),
                LinkError,
            >(e),
        },
{
    let parent = match parent {
        Some(p) => p,
        None => {
            return Err(LinkError::BackupNoParent);
        },
    };
    let backup_dir = join_path(parent.as_str(), "_dot_backup");
    let filename = match file_name {
        Some(f) => f,
        None => {
            return Err(LinkError::BackupNoFileName);
        },
    };
    let ghost fname = filename@;
    let mut name = filename;
    name.append("_");
    proof {
        reveal_strlit("_");
        assert("_"@ =~= seq!['_']);
    }
    name.append(timestamp);
    assert(name@ =~= fname + seq!['_'] + timestamp@);
    let backup_path = join_path(backup_dir.as_str(), name.as_str());
    let ghost backup = backup_path@;
    let ghost dir = backup_dir@;
    let mut steps: Vec<FsAction> = Vec::new();
    steps.push(FsAction::CreateDirAll(backup_dir));
    steps.push(FsAction::Rename(path.to_owned(), backup_path));
    assert(actions_view(steps@) =~= seq![Action::CreateDirAll(dir), Action::Rename(path@, backup)]);
    Ok(steps)
}

/// The steps that back up `path` and take it out of the way: create the backup
/// directory next to it, then move it there under a timestamped name.
pub fn backup_and_remove(path: &str, timestamp: &str) -> (r: Result<Vec<FsAction>, LinkError>)
    ensures
        match r {
            Ok(steps) => backup_location(path@, timestamp@) matches Ok((dir, backup))
                && actions_view(steps@) == seq![Action::CreateDirAll(dir), Action::Rename(path@, backup)],
            Err(e) => backup_location(path@, timestamp@) == Err::<(Seq<char>, Seq<char>), LinkError>(e),
        },
{
    let parent = path_parent(path);
    let file_name = path_file_name(path);
    backup_steps(path, parent, file_name, timestamp)
}

/// Decide what to do for one link, given whether the source exists, the current
/// directory, what is at the destination, and the time stamp a backup would carry.
pub fn plan_symlink(
    source_exists: bool,
    source: &str,
    destination: &str,
    cwd: &str,
    use_relative: bool,
    dry_run: bool,
    force: bool,
    probe: &DestinationProbe,
    timestamp: &str,
) -> (r: Result<LinkPlan, LinkError>)
    ensures
        plan_matches(
            r,
            link_plan_of(
                source_exists,
                source@,
                destination@,
                cwd@,
                use_relative,
                dry_run,
                force,
                probe.state(),
                timestamp@,
            ),
        ),
{
    if !source_exists {
        return Err(LinkError::SourceMissing);
    }
    let link_target = if use_relative {
        compute_relative_path(source, destination)?
    } else {
        join_path(cwd, source)
    };
    let status = check_destination(probe)?;
    let mut steps: Vec<FsAction> = Vec::new();
    let outcome = match status {
        DestinationStatus::NotExists => {
            match path_parent(destination) {
                Some(parent) => {
                    steps.push(FsAction::CreateDirAll(parent));
                },
                None => {},
            }
            assert(actions_view(steps@) =~= match parent_of(destination@) {
                Some(dir) => seq![Action::CreateDirAll(dir)],
                None => seq![],
            });
            LinkOutcome::Created
        },
        DestinationStatus::ExistingSymlink(found) => {
            if paths_equal(found.as_str(), link_target.as_str()) {
                let actions: Vec<FsAction> = Vec::new();
                assert(actions_view(actions@) =~= seq![]);
                return Ok(LinkPlan { outcome: LinkOutcome::AlreadyCorrect, link_target, actions });
            } else if force {
                steps = backup_and_remove(destination, timestamp)?;
                LinkOutcome::Replaced
            } else {
                let actions: Vec<FsAction> = Vec::new();
                assert(actions_view(actions@) =~= seq![]);
                return Ok(LinkPlan { outcome: LinkOutcome::SkippedOtherSymlink(found), link_target, actions });
            }
        },
        DestinationStatus::ExistingFile | DestinationStatus::ExistingDirectory => {
            if force {
                steps = backup_and_remove(destination, timestamp)?;
                LinkOutcome::Replaced
            } else {
                let actions: Vec<FsAction> = Vec::new();
                assert(actions_view(actions@) =~= seq![]);
                return Ok(LinkPlan { outcome: LinkOutcome::SkippedExisting, link_target, actions });
            }
        },
        DestinationStatus::BrokenSymlink => {
            steps.push(FsAction::RemoveFile(destination.to_owned()));
            assert(actions_view(steps@) =~= seq![Action::RemoveFile(destination@)]);
            LinkOutcome::Created
        },
    };
    let ghost pre = actions_view(steps@);
    steps.push(FsAction::Symlink(link_target.clone(), destination.to_owned()));
    assert(actions_view(steps@) =~= pre.push(Action::Symlink(link_target@, destination@)));
    let actions = if dry_run {
        Vec::new()
    } else {
        steps
    };
    assert(dry_run ==> actions_view(actions@) =~= seq![]);
    let plan = LinkPlan { outcome, link_target, actions };
    assert(plan@ == link_plan_of(
        source_exists,
        source@,
        destination@,
        cwd@,
        use_relative,
        dry_run,
        force,
        probe.state(),
        timestamp@,
    )->Ok_0);
    Ok(plan)
}

/// Decide what to do for one link now: as `plan_symlink`, with a backup stamped
/// with the current local time.
pub fn plan_symlink_now(
    source_exists: bool,
    source: &str,
    destination: &str,
    cwd: &str,
    use_relative: bool,
    dry_run: bool,
    force: bool,
    probe: &DestinationProbe,
) -> (r: Result<LinkPlan, LinkError>)
    ensures
        exists|timestamp: Seq<char>|
            plan_matches(
                r,
                #[trigger] link_plan_of(
                    source_exists,
                    source@,
                    destination@,
                    cwd@,
                    use_relative,
                    dry_run,
                    force,
                    probe.state(),
                    timestamp,
                ),
            ),
{
    let stamp_format = "%Y-%m-%d_%H-%M-%S";
    let timestamp = match local_timestamp(stamp_format) {
        Some(t) => t,
        None => vstd::pervasive::unreached(),
    };
    let r = plan_symlink(
        source_exists,
        source,
        destination,
        cwd,
        use_relative,
        dry_run,
        force,
        probe,
        timestamp.as_str(),
    );
    assert(plan_matches(
        r,
        link_plan_of(source_exists, source@, destination@, cwd@, use_relative, dry_run, force, probe.state(), timestamp@),
    ));
    r
}

} // verus!

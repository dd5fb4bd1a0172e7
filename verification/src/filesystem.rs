//! What a plan's actions do to the filesystem, and what a second run finds there.

use crate::symlink::{
    destination_state, lemma_plan_ends_with_link, lemma_relink_is_noop, link_plan_of, Action,
    DestState, EntryKind, LinkError, Outcome,
};
use vstd::prelude::*;

verus! {

/// An entry of the filesystem, as a plan sees it.
pub enum FsEntry {
    Directory,
    File,
    /// A symlink whose target resolves.
    Link(Seq<char>),
    /// A symlink whose target does not resolve.
    DanglingLink(Seq<char>),
}

/// What probing `path` shows on `fs`, classified as `check_destination` does.
pub open spec fn state_in(fs: Map<Seq<char>, FsEntry>, path: Seq<char>) -> Result<DestState, LinkError> {
    if !fs.contains_key(path) {
        destination_state(false, None, None)
    } else {
        match fs[path] {
            FsEntry::Directory => destination_state(true, Some(EntryKind::Directory), None),
            FsEntry::File => destination_state(true, Some(EntryKind::Other), None),
            FsEntry::Link(t) => destination_state(true, Some(EntryKind::Symlink), Some(t)),
            FsEntry::DanglingLink(t) => destination_state(false, Some(EntryKind::Symlink), Some(t)),
        }
    }
}

/// The filesystem after one action, or `None` when the action fails:
/// - creating a directory adds it where nothing is, and keeps a directory (or a
///   link to one) that is there;
/// - a rename moves the entry at `from` to `to`;
/// - removing a file takes away anything but a directory;
/// - a symlink is made only where nothing is, and it points at a source that
///   exists, so it resolves.
pub open spec fn apply_action(fs: Map<Seq<char>, FsEntry>, action: Action) -> Option<Map<Seq<char>, FsEntry>> {
    match action {
        Action::CreateDirAll(p) => if !fs.contains_key(p) {
            Some(fs.insert(p, FsEntry::Directory))
        } else if fs[p] is Directory || fs[p] is Link {
            Some(fs)
        } else {
            None
        },
        Action::Rename(from, to) => if fs.contains_key(from) {
            Some(fs.remove(from).insert(to, fs[from]))
        } else {
            None
        },
        Action::RemoveFile(p) => if fs.contains_key(p) && !(fs[p] is Directory) {
            Some(fs.remove(p))
        } else {
            None
        },
        Action::Symlink(target, link) => if fs.contains_key(link) {
            None
        } else {
            Some(fs.insert(link, FsEntry::Link(target)))
        },
    }
}

/// The filesystem after the actions, performed in order; `None` when one fails
/// (the rest are then not performed).
pub open spec fn apply_actions(fs: Map<Seq<char>, FsEntry>, actions: Seq<Action>) -> Option<
    Map<Seq<char>, FsEntry>,
>
    decreases actions.len(),
{
    if actions.len() == 0 {
        Some(fs)
    } else {
        match apply_action(fs, actions[0]) {
            None => None,
            Some(next) => apply_actions(next, actions.skip(1)),
        }
    }
}

/// When the last action links `link` to `target` and every action succeeds,
/// `link` ends up a symlink to `target`.
proof fn lemma_last_link_stays(
    fs: Map<Seq<char>, FsEntry>,
    actions: Seq<Action>,
    target: Seq<char>,
    link: Seq<char>,
)
    requires
        actions.len() > 0,
        actions.last() == Action::Symlink(target, link),
        apply_actions(fs, actions) is Some,
    ensures
        apply_actions(fs, actions)->Some_0.contains_key(link),
        apply_actions(fs, actions)->Some_0[link] == FsEntry::Link(target),
    decreases actions.len(),
{
    let next = apply_action(fs, actions[0])->Some_0;
    if actions.len() == 1 {
        assert(actions.skip(1).len() == 0);
    } else {
        assert(actions.skip(1).last() == actions.last());
        lemma_last_link_stays(next, actions.skip(1), target, link);
    }
}

/// Linking twice changes nothing the second time. When a plan (not a dry run)
/// was made for what `fs` shows at the destination and its actions were
/// performed, the same plan made again, at any later time, succeeds with the
/// same link target and no action, so the filesystem stays as it is: a link
/// made, replaced or already right is now found right, and a conflict that was
/// skipped is skipped again.
pub proof fn lemma_second_run_changes_nothing(
    source: Seq<char>,
    destination: Seq<char>,
    cwd: Seq<char>,
    use_relative: bool,
    force: bool,
    fs: Map<Seq<char>, FsEntry>,
    timestamp: Seq<char>,
    later_timestamp: Seq<char>,
)
    requires
        link_plan_of(true, source, destination, cwd, use_relative, false, force, state_in(fs, destination), timestamp) is Ok,
        apply_actions(
            fs,
            link_plan_of(true, source, destination, cwd, use_relative, false, force, state_in(fs, destination), timestamp)->Ok_0.2,
        ) is Some,
    ensures
        ({
            let first = link_plan_of(true, source, destination, cwd, use_relative, false, force, state_in(fs, destination), timestamp)->Ok_0;
            let after = apply_actions(fs, first.2)->Some_0;
            let second = link_plan_of(
                true,
                source,
                destination,
                cwd,
                use_relative,
                false,
                force,
                state_in(after, destination),
                later_timestamp,
            );
            &&& second is Ok
            &&& second->Ok_0.1 == first.1
            &&& second->Ok_0.2.len() == 0
            &&& apply_actions(after, second->Ok_0.2) == Some(after)
            &&& second->Ok_0.0 == if first.0 is SkippedOtherSymlink || first.0 is SkippedExisting {
                first.0
            } else {
                Outcome::AlreadyCorrect
            }
        }),
{
    let state = state_in(fs, destination);
    let first = link_plan_of(true, source, destination, cwd, use_relative, false, force, state, timestamp)->Ok_0;
    let after = apply_actions(fs, first.2)->Some_0;
    if first.0 is Created || first.0 is Replaced {
        lemma_plan_ends_with_link(true, source, destination, cwd, use_relative, force, state, timestamp);
        lemma_last_link_stays(fs, first.2, first.1, destination);
        assert(state_in(after, destination) == destination_state(true, Some(EntryKind::Symlink), Some(first.1)));
        lemma_relink_is_noop(
            source,
            destination,
            cwd,
            use_relative,
            false,
            force,
            state,
            timestamp,
            false,
            force,
            later_timestamp,
        );
    } else {
        assert(first.2.len() == 0);
        assert(after == fs);
    }
}

} // verus!

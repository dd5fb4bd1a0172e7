//! Entries of a module section, resolved to a source and a destination path.

use crate::path::{join_path, path_join};
use crate::text::{
    first_index_of, lemma_first_index_of, starts_with_char, str_eq, str_find_char, str_strip_char_prefix,
    strip_char_prefix,
};
use vstd::prelude::*;

verus! {

/// A parsed entry with source and destination paths.
#[derive(Debug, Clone)]
pub struct LinkEntry {
    /// Path in the dotfiles repository (source).
    pub source: String,
    /// Path where the symlink should be created (destination).
    pub destination: String,
}

impl LinkEntry {
    pub open spec fn view(&self) -> (Seq<char>, Seq<char>) {
        (self.source@, self.destination@)
    }
}

/// Why an entry could not be resolved.
#[derive(Debug, Clone, Copy, PartialEq, Eq)]
pub enum EntryError {
    /// A mapped entry without a `:` separator.
    InvalidMappedEntry,
}

/// What `Regex::new(pattern)` followed by `replace(text, NoExpand(replacement))`
/// gives: `None` when the pattern does not compile.
pub uninterp spec fn regex_replaced(pattern: Seq<char>, text: Seq<char>, replacement: Seq<char>) -> Option<
    Seq<char>,
>;

/// The pattern `^\$`: a `$` at the start of the text.
pub open spec fn is_leading_dollar_pattern(p: Seq<char>) -> bool {
    p == seq!['^', '\\', '$']
}

/// `text` with a leading `$` replaced by `replacement`, taken literally.
pub open spec fn leading_dollar_replaced(text: Seq<char>, replacement: Seq<char>) -> Seq<char> {
    if starts_with_char(text, '$') {
        replacement + text.skip(1)
    } else {
        text
    }
}

/// `regex::Regex::new(pattern)`, then `Regex::replace(text, NoExpand(replacement))`:
/// the first match of `pattern` in `text` is replaced by `replacement`, taken
/// literally. Claimed: the result is `regex_replaced(pattern, text, replacement)`;
/// and, as the crate documents, the pattern `^\$` compiles and matches exactly a
/// `$` at the start of `text`, so the result is then `text` with that `$`
/// replaced by `replacement`, or `text` itself when it does not start with `$`.
#[verifier::external_body]
fn regex_replace_literal(pattern: &str, text: &str, replacement: &str) -> (r: Option<String>)
    ensures
        match r {
            Some(t) => regex_replaced(pattern@, text@, replacement@) == Some(t@),
            None => regex_replaced(pattern@, text@, replacement@) is None,
        },
        is_leading_dollar_pattern(pattern@) ==> r is Some && r->Some_0@ == leading_dollar_replaced(text@, replacement@),
{
    match regex::Regex::new(pattern) {
        Ok(re) => Some(re.replace(text, regex::NoExpand(replacement)).into_owned()),
        Err(_) => None,
    }
}

/// A mapped segment with `$` substituted: `$` alone is the module name; otherwise
/// a leading `$` is replaced by the module name, taken literally.
pub open spec fn substituted(s: Seq<char>, module_name: Seq<char>) -> Seq<char> {
    if s == seq!['$'] {
        module_name
    } else {
        leading_dollar_replaced(s, module_name)
    }
}

/// The name a simple entry links: `$` is the module name; a leading `*` is dropped.
pub open spec fn simple_name(entry: Seq<char>, module_name: Seq<char>) -> Seq<char> {
    let e = if entry == seq!['$'] {
        module_name
    } else {
        entry
    };
    strip_char_prefix(e, '*')
}

/// How an entry resolves: a leading `:` is dropped; if a `:` remains, the text
/// before the first one names the source and the text after it the destination
/// (each with `$` substituted and a leading `*` dropped); otherwise both use the
/// same name.
pub open spec fn resolve_entry(
    entry: Seq<char>,
    module_name: Seq<char>,
    module_dir: Seq<char>,
    base_dir: Seq<char>,
) -> (Seq<char>, Seq<char>) {
    let e = strip_char_prefix(entry, ':');
    match first_index_of(e, ':') {
        Some(i) => {
            let link_name = strip_char_prefix(substituted(e.take(i), module_name), '*');
            let dest_name = strip_char_prefix(substituted(e.skip(i + 1), module_name), '*');
            (path_join(module_dir, link_name), path_join(base_dir, dest_name))
        },
        None => {
            let name = simple_name(e, module_name);
            (path_join(module_dir, name), path_join(base_dir, name))
        },
    }
}

/// A leading `:` is decorative: an entry resolves the same with or without it.
pub proof fn lemma_leading_colon_ignored(
    entry: Seq<char>,
    module_name: Seq<char>,
    module_dir: Seq<char>,
    base_dir: Seq<char>,
)
    requires
        !starts_with_char(entry, ':'),
    ensures
        resolve_entry(seq![':'] + entry, module_name, module_dir, base_dir) == resolve_entry(
            entry,
            module_name,
            module_dir,
            base_dir,
        ),
{
    assert((seq![':'] + entry).skip(1) =~= entry);
}

/// `$` alone links the module's own name, under the module directory and under
/// the base directory.
pub proof fn lemma_dollar_is_module_name(
    module_name: Seq<char>,
    module_dir: Seq<char>,
    base_dir: Seq<char>,
)
    ensures
        resolve_entry(seq!['$'], module_name, module_dir, base_dir) == (
            path_join(module_dir, strip_char_prefix(module_name, '*')),
            path_join(base_dir, strip_char_prefix(module_name, '*')),
        ),
{
    assert(first_index_of(seq!['$'], ':') is None);
}

/// A leading `*` of a simple entry is dropped.
pub proof fn lemma_leading_star_ignored(
    entry: Seq<char>,
    module_name: Seq<char>,
    module_dir: Seq<char>,
    base_dir: Seq<char>,
)
    requires
        !starts_with_char(entry, '*'),
        !starts_with_char(entry, ':'),
        !entry.contains(':'),
        entry != seq!['$'],
    ensures
        resolve_entry(seq!['*'] + entry, module_name, module_dir, base_dir) == resolve_entry(
            entry,
            module_name,
            module_dir,
            base_dir,
        ),
        resolve_entry(entry, module_name, module_dir, base_dir) == (
            path_join(module_dir, entry),
            path_join(base_dir, entry),
        ),
{
    let e = seq!['*'] + entry;
    assert(e.skip(1) =~= entry);
    assert(first_index_of(entry, ':') is None);
    if first_index_of(e, ':') is Some {
        let i = first_index_of(e, ':')->Some_0;
        assert(e[i] == ':');
        assert(entry[i - 1] == ':');
    }
    assert(e != seq!['$']) by {
        if e == seq!['$'] {
            assert(e[0] == '*');
        }
    }
}

/// A simple entry links the same name on both sides; a mapped entry splits at
/// its first `:` (after a decorative leading one).
pub proof fn lemma_simple_entry_same_name(
    entry: Seq<char>,
    module_name: Seq<char>,
    module_dir: Seq<char>,
    base_dir: Seq<char>,
)
    requires
        !strip_char_prefix(entry, ':').contains(':'),
    ensures
        ({
            let n = simple_name(strip_char_prefix(entry, ':'), module_name);
            resolve_entry(entry, module_name, module_dir, base_dir) == (
                path_join(module_dir, n),
                path_join(base_dir, n),
            )
        }),
{
    let e = strip_char_prefix(entry, ':');
    if first_index_of(e, ':') is Some {
        let i = first_index_of(e, ':')->Some_0;
        assert(e[i] == ':');
    }
}

/// A mapped entry `link:dest` whose link side is a non-empty name without `:`,
/// and whose two sides carry neither a leading `$` nor a leading `*`, links the
/// name `link` under the module directory to the name `dest`, kept exactly as
/// written (everything after the first `:`), under the base directory.
pub proof fn lemma_mapped_entry_names_kept(
    link: Seq<char>,
    dest: Seq<char>,
    module_name: Seq<char>,
    module_dir: Seq<char>,
    base_dir: Seq<char>,
)
    requires
        link.len() > 0,
        !link.contains(':'),
        !starts_with_char(link, '$'),
        !starts_with_char(link, '*'),
        !starts_with_char(dest, '$'),
        !starts_with_char(dest, '*'),
    ensures
        resolve_entry(link + seq![':'] + dest, module_name, module_dir, base_dir) == (
            path_join(module_dir, link),
            path_join(base_dir, dest),
        ),
{
    let e = link + seq![':'] + dest;
    assert(e[0] == link[0]);
    assert(strip_char_prefix(e, ':') == e);
    assert forall|j: int| 0 <= j < link.len() implies e[j] != ':' by {
        assert(e[j] == link[j]);
    }
    lemma_first_index_of(e, ':', link.len() as int);
    assert(e.take(link.len() as int) =~= link);
    assert(e.skip(link.len() as int + 1) =~= dest);
    assert(link != seq!['$']) by {
        if link == seq!['$'] {
            assert(link[0] == '$');
        }
    }
    assert(dest != seq!['$']) by {
        if dest == seq!['$'] {
            assert(dest[0] == '$');
        }
    }
}

/// Substitute `$` with the module name in a segment.
fn substitute_module_name(s: &str, module_name: &str) -> (r: String)
    ensures
        r@ == substituted(s@, module_name@),
{
    let is_dollar = str_eq(s, "$");
    proof {
        reveal_strlit("$");
        assert("$"@ =~= seq!['$']);
    }
    if is_dollar {
        return module_name.to_owned();
    }
    let leading_dollar = "^\\$";
    proof {
        reveal_strlit("^\\$");
        assert(leading_dollar@ =~= seq!['^', '\\', '$']);
    }
    match regex_replace_literal(leading_dollar, s, module_name) {
        Some(t) => t,
        None => s.to_owned(),
    }
}

/// Parse a simple entry (e.g., "dunst", "$", "*item").
fn parse_simple_entry(entry: &str, module_name: &str, module_dir: &str, base_dir: &str) -> (r:
    Result<LinkEntry, EntryError>)
    ensures
        r matches Ok(le) && le@ == (
            path_join(module_dir@, simple_name(entry@, module_name@)),
            path_join(base_dir@, simple_name(entry@, module_name@)),
        ),
{
    let is_dollar = str_eq(entry, "$");
    proof {
        reveal_strlit("$");
        assert("$"@ =~= seq!['$']);
    }
    let entry = if is_dollar {
        module_name
    } else {
        entry
    };
    let entry = str_strip_char_prefix(entry, '*');
    let source = join_path(module_dir, entry);
    let destination = join_path(base_dir, entry);
    Ok(LinkEntry { source, destination })
}

/// Parse a mapped entry (e.g., "link_name:dest_name").
fn parse_mapped_entry(entry: &str, module_name: &str, module_dir: &str, base_dir: &str) -> (r:
    Result<LinkEntry, EntryError>)
    ensures
        match first_index_of(entry@, ':') {
            Some(i) => r matches Ok(le) && le@ == (
                path_join(
                    module_dir@,
                    strip_char_prefix(substituted(entry@.take(i), module_name@), '*'),
                ),
                path_join(
                    base_dir@,
                    strip_char_prefix(substituted(entry@.skip(i + 1), module_name@), '*'),
                ),
            ),
            None => r == Err::<LinkEntry, EntryError>(EntryError::InvalidMappedEntry),
        },
{
    let idx = match str_find_char(entry, ':') {
        Some(i) => i,
        None => {
            return Err(EntryError::InvalidMappedEntry);
        },
    };
    let n = entry.unicode_len();
    let link_name = entry.substring_char(0, idx);
    let dest_name = entry.substring_char(idx + 1, n);
    assert(link_name@ == entry@.take(idx as int));
    assert(dest_name@ =~= entry@.skip(idx + 1));
    let link_name = substitute_module_name(link_name, module_name);
    let dest_name = substitute_module_name(dest_name, module_name);
    let link_name = str_strip_char_prefix(link_name.as_str(), '*');
    let dest_name = str_strip_char_prefix(dest_name.as_str(), '*');
    let source = join_path(module_dir, link_name);
    let destination = join_path(base_dir, dest_name);
    Ok(LinkEntry { source, destination })
}

/// Parse an entry string and resolve it to source and destination paths.
pub fn parse_entry(entry: &str, module_name: &str, module_dir: &str, base_dir: &str) -> (r: Result<
    LinkEntry,
    EntryError,
>)
    ensures
        r matches Ok(le) && le@ == resolve_entry(entry@, module_name@, module_dir@, base_dir@),
{
    let entry = str_strip_char_prefix(entry, ':');
    if str_find_char(entry, ':').is_some() {
        parse_mapped_entry(entry, module_name, module_dir, base_dir)
    } else {
        parse_simple_entry(entry, module_name, module_dir, base_dir)
    }
}

} // verus!

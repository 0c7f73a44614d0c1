//! Deciding, for one directory entry, whether the listing skips it.

use vstd::prelude::*;
use vstd::string::*;

verus! {

/// What kind of filesystem node an entry is.
#[derive(Clone, Copy, Debug, PartialEq, Eq, Structural)]
pub enum EntryKind {
    Dir,
    File,
    /// Anything else, such as a symbolic link that is not followed.
    Other,
}

/// One node of a directory listing: its base name, its full path and its kind.
#[derive(Debug)]
pub struct Entry {
    pub name: String,
    pub path: String,
    pub kind: EntryKind,
}

/// The set of names that a list of strings holds.
pub open spec fn name_set(v: Seq<String>) -> Set<Seq<char>> {
    Set::new(|x: Seq<char>| exists|i: int| 0 <= i < v.len() && #[trigger] v[i]@ == x)
}

/// The optional allow-list as a set; `None` allows every extension.
pub open spec fn desired_set(d: Option<Vec<String>>) -> Option<Set<Seq<char>>> {
    match d {
        Some(v) => Some(name_set(v@)),
        None => None,
    }
}

/// Position of the last `.` in `s`, or -1 when there is none.
pub open spec fn last_dot(s: Seq<char>) -> int
    decreases s.len(),
{
    if s.len() == 0 {
        -1
    } else if s.last() == '.' {
        s.len() - 1
    } else {
        last_dot(s.drop_last())
    }
}

/// The extension of a file name, without the dot: what follows the last dot,
/// provided that something precedes it. `..`, names without a dot and names
/// whose only dot leads have none; `a.` has the empty extension.
pub open spec fn extension(name: Seq<char>) -> Option<Seq<char>> {
    if name == seq!['.', '.'] || last_dot(name) <= 0 {
        None
    } else {
        Some(name.subrange(last_dot(name) + 1, name.len() as int))
    }
}

/// A directory whose name is on the list of ignored directories.
pub open spec fn ignored_dir(e: Entry, ignored_dirs: Set<Seq<char>>) -> bool {
    e.kind == EntryKind::Dir && ignored_dirs.contains(e.name@)
}

/// A file whose extension is on the deny-list.
pub open spec fn ignored_extension(e: Entry, ignored_extensions: Set<Seq<char>>) -> bool {
    e.kind == EntryKind::File && match extension(e.name@) {
        Some(x) => ignored_extensions.contains(x),
        None => false,
    }
}

/// Passes the allow-list: there is none, the entry is not a file, or the
/// file's extension is on it.
pub open spec fn desired_extension(e: Entry, desired: Option<Set<Seq<char>>>) -> bool {
    match desired {
        None => true,
        Some(d) => e.kind != EntryKind::File || match extension(e.name@) {
            Some(x) => d.contains(x),
            None => false,
        },
    }
}

/// An entry is skipped when any one of the three exclusions applies.
pub open spec fn skipped(
    e: Entry,
    desired: Option<Set<Seq<char>>>,
    ignored_extensions: Set<Seq<char>>,
    ignored_dirs: Set<Seq<char>>,
) -> bool {
    ignored_dir(e, ignored_dirs) || ignored_extension(e, ignored_extensions)
        || !desired_extension(e, desired)
}

/// Whether `name` is one of the strings of `set` (case-sensitive).
pub fn contains_name(set: &Vec<String>, name: &String) -> (r: bool)
    ensures
        r == name_set(set@).contains(name@),
{
    let mut i: usize = 0;
    while i < set.len()
        invariant
            i <= set.len(),
            forall|j: int| 0 <= j < i ==> set@[j]@ != name@,
        decreases set.len() - i,
    {
        if set[i] == *name {
            assert(set@[i as int]@ == name@);
            return true;
        }
        i = i + 1;
    }
    proof {
        if name_set(set@).contains(name@) {
            let j = choose|j: int| 0 <= j < set@.len() && #[trigger] set@[j]@ == name@;
            assert(set@[j]@ == name@);
        }
    }
    false
}

proof fn lemma_last_dot_prefix(s: Seq<char>, i: int)
    requires
        0 < i <= s.len(),
        s[i - 1] != '.',
    ensures
        last_dot(s.subrange(0, i)) == last_dot(s.subrange(0, i - 1)),
{
    assert(s.subrange(0, i).drop_last() =~= s.subrange(0, i - 1));
}

/// The extension of a file name, as `Path::extension` gives it for a path
/// whose last component is `name`.
pub fn extension_of(name: &String) -> (r: Option<String>)
    ensures
        match r {
            Some(x) => extension(name@) == Some(x@),
            None => extension(name@) is None,
        },
{
    let s = name.as_str();
    let len = s.unicode_len();
    if len == 2 && s.get_char(0) == '.' && s.get_char(1) == '.' {
        assert(name@ =~= seq!['.', '.']);
        return None;
    }
    let mut i: usize = len;
    assert(name@.subrange(0, len as int) =~= name@);
    while i > 0 && s.get_char(i - 1) != '.'
        invariant
            i <= len,
            len == s@.len(),
            s@ == name@,
            last_dot(name@) == last_dot(name@.subrange(0, i as int)),
        decreases i,
    {
        proof {
            lemma_last_dot_prefix(name@, i as int);
        }
        i = i - 1;
    }
    if i <= 1 {
        proof {
            if i == 1 {
                assert(name@.subrange(0, 1).last() == '.');
            } else {
                assert(name@.subrange(0, 0).len() == 0);
            }
        }
        return None;
    }
    assert(name@.subrange(0, i as int).last() == '.');
    let ext = s.substring_char(i, len);
    Some(String::from_str(ext))
}

/// True iff the entry is a directory whose name is in `ignored_dirs`.
pub fn is_ignored_dir(entry: &Entry, ignored_dirs: &Vec<String>) -> (r: bool)
    ensures
        r == ignored_dir(*entry, name_set(ignored_dirs@)),
{
    entry.kind == EntryKind::Dir && contains_name(ignored_dirs, &entry.name)
}

/// True iff the entry is a file whose extension is in `ignored_extensions`.
pub fn is_ignored_extension(entry: &Entry, ignored_extensions: &Vec<String>) -> (r: bool)
    ensures
        r == ignored_extension(*entry, name_set(ignored_extensions@)),
{
    if entry.kind != EntryKind::File {
        return false;
    }
    match extension_of(&entry.name) {
        Some(ext) => contains_name(ignored_extensions, &ext),
        None => false,
    }
}

/// True when there is no allow-list, when the entry is not a file, or when
/// the file's extension is in the allow-list.
pub fn is_desired_extension(entry: &Entry, desired_extensions: &Option<Vec<String>>) -> (r: bool)
    ensures
        r == desired_extension(*entry, desired_set(*desired_extensions)),
{
    if let Some(desired) = desired_extensions {
        if entry.kind == EntryKind::File {
            return match extension_of(&entry.name) {
                Some(ext) => contains_name(desired, &ext),
                None => false,
            };
        }
    }
    true
}

/// Whether the listing leaves this entry out.
pub fn should_skip(
    entry: &Entry,
    desired_extensions: &Option<Vec<String>>,
    ignored_extensions: &Vec<String>,
    ignored_dirs: &Vec<String>,
) -> (r: bool)
    ensures
        r == skipped(
            *entry,
            desired_set(*desired_extensions),
            name_set(ignored_extensions@),
            name_set(ignored_dirs@),
        ),
{
    is_ignored_dir(entry, ignored_dirs) || is_ignored_extension(entry, ignored_extensions)
        || !is_desired_extension(entry, desired_extensions)
}

} // verus!

//! What a release archive has to hold: the application's two entry points,
//! one level below a directory named after the application.

use crate::err::{fault, fault_of, Error, ErrorKind, ErrorView};
use crate::text::{chars_of, join, join_with, same, split, split_on, views};
use crate::update::{ID_SCRIPT, RUN_SCRIPT};
use vstd::prelude::*;

verus! {

/// Whether a path segment names something: it is neither empty nor a dot.
pub open spec fn is_name(segment: Seq<char>) -> bool {
    segment.len() > 0 && segment != "."@
}

/// The components of a slash-separated path. Repeated and trailing slashes
/// and dots inside the path do not count. A path that begins with a slash has
/// the slash as its first component, and one that begins with a dot segment
/// has the dot.
pub open spec fn components(path: Seq<char>) -> Seq<Seq<char>> {
    let names = split(path, '/').filter(|s: Seq<char>| is_name(s));
    if path.len() > 0 && path[0] == '/' {
        seq!["/"@] + names
    } else if split(path, '/')[0] == "."@ {
        seq!["."@] + names
    } else {
        names
    }
}

/// Whether `path` is the entry `script` directly below `prefix`.
pub open spec fn is_script(prefix: Seq<char>, path: Seq<char>, script: Seq<char>) -> bool {
    let c = components(path);
    c.len() > 0 && c.last() == script && c.drop_last() == components(prefix)
}

/// Whether `path` is one of the two entry points directly below `prefix`.
pub open spec fn is_entry_point(prefix: Seq<char>, path: Seq<char>) -> bool {
    is_script(prefix, path, RUN_SCRIPT@) || is_script(prefix, path, ID_SCRIPT@)
}

/// Whether some entry is `script` directly below `prefix`.
pub open spec fn holds(prefix: Seq<char>, entries: Seq<Seq<char>>, script: Seq<char>) -> bool {
    exists|i: int| 0 <= i < entries.len() && is_script(prefix, #[trigger] entries[i], script)
}

/// Whether the entries hold both entry points directly below `prefix`.
pub open spec fn complete(prefix: Seq<char>, entries: Seq<Seq<char>>) -> bool {
    holds(prefix, entries, RUN_SCRIPT@) && holds(prefix, entries, ID_SCRIPT@)
}

/// The entries that are entry points below `prefix`, in order.
pub open spec fn entry_points_of(prefix: Seq<char>, entries: Seq<Seq<char>>) -> Seq<Seq<char>> {
    entries.filter(|path: Seq<char>| is_entry_point(prefix, path))
}

/// What the extracted entries of an archive for the application `prefix`
/// amount to: the number of entry points where both are there, else the error
/// that lists the entry points that were found.
pub open spec fn validated(prefix: Seq<char>, entries: Seq<Seq<char>>) -> Result<usize, ErrorView> {
    if complete(prefix, entries) {
        Ok(2)
    } else {
        Err(
            fault_of(
                ErrorKind::InvalidArchive,
                "Invalid archive; Missing script(s): "@,
                join(entry_points_of(prefix, entries), ", "@),
            ),
        )
    }
}

/// The components of a slash-separated path.
pub fn path_components(path: &str) -> (parts: Vec<String>)
    ensures
        views(parts@) == components(path@),
{
    let segments = split_on(path, '/');
    proof {
        crate::text::split_is_not_empty(path@, '/');
    }
    let chars = chars_of(path);
    let mut parts: Vec<String> = Vec::new();
    if chars.len() > 0 && chars[0] == '/' {
        parts.push(String::from_str("/"));
    } else if same(segments[0].as_str(), ".") {
        parts.push(String::from_str("."));
    }
    let ghost head = views(parts@);
    let ghost all = split(path@, '/');
    let ghost keep = |s: Seq<char>| is_name(s);
    assert(all.take(0).filter(keep) =~= Seq::<Seq<char>>::empty()) by {
        reveal(Seq::filter);
    }
    assert(head + all.take(0).filter(keep) =~= views(parts@));
    let n: usize = segments.len();
    let mut i: usize = 0;
    while i < n
        invariant
            i <= n == segments.len(),
            views(segments@) == all,
            keep == |s: Seq<char>| is_name(s),
            views(parts@) == head + all.take(i as int).filter(keep),
        decreases n - i,
    {
        let segment = segments[i].as_str();
        assert(all.take(i + 1).drop_last() =~= all.take(i as int));
        assert(all.take(i + 1).last() == segment@);
        assert(all.take(i + 1).filter(keep) == if keep(segment@) {
            all.take(i as int).filter(keep).push(segment@)
        } else {
            all.take(i as int).filter(keep)
        }) by {
            reveal(Seq::filter);
        }
        if !segment.is_empty() && !same(segment, ".") {
            let ghost before = parts@;
            parts.push(segment.to_owned());
            assert(views(parts@) =~= views(before).push(segment@));
            assert(views(parts@) =~= head + all.take(i + 1).filter(keep));
        }
        i += 1;
    }
    assert(all.take(n as int) =~= all);
    parts
}

/// Whether two lists of strings hold the same texts in the same order.
fn same_texts(a: &Vec<String>, b: &Vec<String>) -> (r: bool)
    ensures
        r == (views(a@) == views(b@)),
{
    if a.len() != b.len() {
        assert(views(a@).len() != views(b@).len());
        return false;
    }
    let mut i: usize = 0;
    while i < a.len()
        invariant
            i <= a.len() == b.len(),
            forall|k: int| 0 <= k < i ==> a@[k]@ == b@[k]@,
        decreases a.len() - i,
    {
        if !same(a[i].as_str(), b[i].as_str()) {
            assert(views(a@)[i as int] != views(b@)[i as int]);
            return false;
        }
        i += 1;
    }
    assert(views(a@) =~= views(b@));
    true
}

/// Whether `path` is the entry `script` directly below the directory whose
/// components are `prefix`.
fn names_script(prefix: &Vec<String>, path: &str, script: &str) -> (r: bool)
    ensures
        r == ({
            let c = components(path@);
            c.len() > 0 && c.last() == script@ && c.drop_last() == views(prefix@)
        }),
{
    let mut parts = path_components(path);
    let ghost c = views(parts@);
    match parts.pop() {
        Some(last) => {
            assert(views(parts@) =~= c.drop_last());
            assert(last@ == c.last());
            same(last.as_str(), script) && same_texts(&parts, prefix)
        },
        None => false,
    }
}

/// The entries that are entry points directly below `prefix`, in order.
pub fn entry_points(prefix: &str, entries: &Vec<String>) -> (found: Vec<String>)
    ensures
        views(found@) == entry_points_of(prefix@, views(entries@)),
{
    let base = path_components(prefix);
    let ghost all = views(entries@);
    let ghost keep = |path: Seq<char>| is_entry_point(prefix@, path);
    let mut found: Vec<String> = Vec::new();
    assert(all.take(0).filter(keep) =~= views(found@)) by {
        reveal(Seq::filter);
    }
    let mut i: usize = 0;
    while i < entries.len()
        invariant
            i <= entries.len(),
            all == views(entries@),
            views(base@) == components(prefix@),
            keep == |path: Seq<char>| is_entry_point(prefix@, path),
            views(found@) == all.take(i as int).filter(keep),
        decreases entries.len() - i,
    {
        let path = entries[i].as_str();
        assert(all.take(i + 1).drop_last() =~= all.take(i as int));
        assert(all.take(i + 1).last() == path@);
        assert(all.take(i + 1).filter(keep) == if keep(path@) {
            all.take(i as int).filter(keep).push(path@)
        } else {
            all.take(i as int).filter(keep)
        }) by {
            reveal(Seq::filter);
        }
        if names_script(&base, path, RUN_SCRIPT) || names_script(&base, path, ID_SCRIPT) {
            let ghost before = found@;
            found.push(path.to_owned());
            assert(views(found@) =~= views(before).push(path@));
        }
        i += 1;
    }
    assert(all.take(entries.len() as int) =~= all);
    found
}

/// Whether some entry is `script` directly below the directory whose
/// components are `base`.
fn has_script(base: &Vec<String>, prefix: Ghost<Seq<char>>, entries: &Vec<String>, script: &str) -> (r:
    bool)
    requires
        views(base@) == components(prefix@),
    ensures
        r == holds(prefix@, views(entries@), script@),
{
    let mut i: usize = 0;
    while i < entries.len()
        invariant
            i <= entries.len(),
            views(base@) == components(prefix@),
            forall|k: int|
                0 <= k < i ==> !is_script(prefix@, #[trigger] views(entries@)[k], script@),
        decreases entries.len() - i,
    {
        if names_script(base, entries[i].as_str(), script) {
            assert(is_script(prefix@, views(entries@)[i as int], script@));
            return true;
        }
        i += 1;
    }
    false
}

/// Accepts the extracted entries of an archive for the application `prefix`.
///
/// Succeeds, with the number of entry points, exactly when both `run.sh` and
/// `id.sh` are among the entries, directly below `prefix`. Otherwise fails
/// with `InvalidArchive` and lists the entry points that were found.
pub fn validate_entries(prefix: &str, entries: &Vec<String>) -> (r: Result<usize, Error>)
    ensures
        match validated(prefix@, views(entries@)) {
            Ok(n) => r == Ok::<usize, Error>(n),
            Err(err) => r matches Err(e) && e@ == err,
        },
{
    let base = path_components(prefix);
    if has_script(&base, Ghost(prefix@), entries, RUN_SCRIPT) && has_script(
        &base,
        Ghost(prefix@),
        entries,
        ID_SCRIPT,
    ) {
        Ok(2)
    } else {
        let found = entry_points(prefix, entries);
        Err(
            fault(
                ErrorKind::InvalidArchive,
                "Invalid archive; Missing script(s): ",
                join_with(&found, ", ").as_str(),
            ),
        )
    }
}

} // verus!

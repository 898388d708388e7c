use crate::text::views;
use vstd::prelude::*;
use vstd::string::*;

verus! {

/// A path is absolute when it starts at the root directory.
pub open spec fn is_absolute(path: Seq<char>) -> bool {
    path.len() > 0 && path[0] == '/'
}

/// The path of `file` seen from the directory `dir`.
///
/// An absolute `file` stands for itself. Otherwise `file` is appended to `dir`,
/// with one `/` between them unless `dir` is empty or already ends with one.
/// In particular the empty directory leaves a relative `file` as it is.
pub open spec fn joined(dir: Seq<char>, file: Seq<char>) -> Seq<char> {
    if is_absolute(file) {
        file
    } else if dir.len() > 0 && dir.last() != '/' {
        dir + seq!['/'] + file
    } else {
        dir + file
    }
}

/// Joins a file name to a directory.
pub fn join(dir: &str, file: &str) -> (path: String)
    ensures
        path@ == joined(dir@, file@),
{
    if file.unicode_len() > 0 && file.get_char(0) == '/' {
        return String::from_str(file);
    }
    let mut path = String::from_str(dir);
    let n = dir.unicode_len();
    if n > 0 && dir.get_char(n - 1) != '/' {
        proof {
            reveal_strlit("/");
        }
        path.append("/");
    }
    path.append(file);
    path
}

/// The candidates that count in a search: a directory counts when the probe
/// answered for it, so the shorter of the two lists bounds the search.
pub open spec fn searched(dirs: Seq<Seq<char>>, found: Seq<bool>) -> int {
    if dirs.len() <= found.len() {
        dirs.len() as int
    } else {
        found.len() as int
    }
}

/// Position of the first directory at or after `start` that was found, if any.
pub open spec fn first_found_from(dirs: Seq<Seq<char>>, found: Seq<bool>, start: int) -> Option<int>
    decreases searched(dirs, found) - start,
{
    if start < 0 || start >= searched(dirs, found) {
        None
    } else if found[start] {
        Some(start)
    } else {
        first_found_from(dirs, found, start + 1)
    }
}

/// The directory that a search settles on: the first one, in the order of
/// `dirs`, whose probe answered `true`; none if no probe did.
pub open spec fn resolved(dirs: Seq<Seq<char>>, found: Seq<bool>) -> Option<Seq<char>> {
    match first_found_from(dirs, found, 0) {
        Some(i) => Some(dirs[i]),
        None => None,
    }
}

/// `i` is the position of a found directory and no earlier directory was found.
pub open spec fn is_first_found(dirs: Seq<Seq<char>>, found: Seq<bool>, i: int) -> bool {
    &&& 0 <= i < searched(dirs, found)
    &&& found[i]
    &&& forall|j: int| 0 <= j < i ==> !found[j]
}

/// No directory of the search was found.
pub open spec fn none_found(dirs: Seq<Seq<char>>, found: Seq<bool>) -> bool {
    forall|j: int| 0 <= j < searched(dirs, found) ==> !found[j]
}

proof fn lemma_first_found_from(dirs: Seq<Seq<char>>, found: Seq<bool>, start: int)
    requires
        0 <= start <= searched(dirs, found),
    ensures
        match first_found_from(dirs, found, start) {
            Some(i) => start <= i < searched(dirs, found) && found[i] && forall|j: int|
                start <= j < i ==> !found[j],
            None => forall|j: int| start <= j < searched(dirs, found) ==> !found[j],
        },
    decreases searched(dirs, found) - start,
{
    if start < searched(dirs, found) && !found[start] {
        lemma_first_found_from(dirs, found, start + 1);
    }
}

/// Resolution is first-match: it yields a directory exactly when some probe
/// answered `true`, and then the one at the least such position; it yields
/// none exactly when every probe answered `false`.
pub proof fn law_resolution_first_match(dirs: Seq<Seq<char>>, found: Seq<bool>)
    ensures
        match first_found_from(dirs, found, 0) {
            Some(i) => is_first_found(dirs, found, i) && resolved(dirs, found) == Some(dirs[i]),
            None => none_found(dirs, found) && resolved(dirs, found).is_none(),
        },
        forall|i: int| is_first_found(dirs, found, i) ==> resolved(dirs, found) == Some(dirs[i]),
        none_found(dirs, found) <==> resolved(dirs, found).is_none(),
{
    lemma_first_found_from(dirs, found, 0);
}

/// Finds the first directory whose probe answered `true`.
///
/// `found[i]` tells whether the file looked for exists under `dirs[i]`.
pub fn resolve(dirs: &Vec<String>, found: &Vec<bool>) -> (dir: Option<String>)
    ensures
        match dir {
            Some(d) => resolved(views(dirs@), found@) == Some(d@),
            None => resolved(views(dirs@), found@).is_none(),
        },
{
    let mut i: usize = 0;
    while i < dirs.len() && i < found.len()
        invariant
            0 <= i <= searched(views(dirs@), found@),
            first_found_from(views(dirs@), found@, 0) == first_found_from(
                views(dirs@),
                found@,
                i as int,
            ),
        decreases dirs.len() - i,
    {
        if found[i] {
            return Some(dirs[i].clone());
        }
        i += 1;
    }
    None
}

} // verus!

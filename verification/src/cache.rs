//! Finding a wallpaper among the files that are on disk already.
//!
//! A wallpaper is found in the last of the files whose name begins with the
//! file name of the wallpaper. Before its picture has been seen that name has
//! no extension, so the file is found whatever its extension is.

use crate::text::chars_of;
use crate::text::starts_with;
use vstd::prelude::*;

verus! {

/// Whether the file named `names[at]` is the one in which a wallpaper with
/// the given file name is found on disk: the last of the files whose name
/// begins with that name.
pub open spec fn is_cache_hit(names: Seq<Seq<char>>, name: Seq<char>, at: int) -> bool {
    &&& 0 <= at < names.len()
    &&& name.is_prefix_of(names[at])
    &&& forall|later: int| at < later < names.len() ==> !name.is_prefix_of(#[trigger] names[later])
}

/// Whether no file is one in which a wallpaper with the given file name is
/// found on disk.
pub open spec fn is_cache_miss(names: Seq<Seq<char>>, name: Seq<char>) -> bool {
    forall|at: int| 0 <= at < names.len() ==> !name.is_prefix_of(#[trigger] names[at])
}

/// The characters of each of the texts.
pub open spec fn texts(names: Seq<String>) -> Seq<Seq<char>> {
    names.map_values(|name: String| name@)
}

/// The place of the file in which a wallpaper with the given file name is
/// found among the files with the given names, if there is such a file.
pub open spec fn cached_at(names: Seq<Seq<char>>, name: Seq<char>) -> Option<int> {
    if exists|at: int| is_cache_hit(names, name, at) {
        Some(choose|at: int| is_cache_hit(names, name, at))
    } else {
        None
    }
}

/// There is at most one place at which a wallpaper is found among the files,
/// and `cached_at` gives it.
pub proof fn lemma_cached_at(names: Seq<Seq<char>>, name: Seq<char>, at: int)
    requires
        is_cache_hit(names, name, at),
    ensures
        cached_at(names, name) == Some(at),
{
    // Of two places, the later one would rule the earlier one out.
    let chosen = choose|at: int| is_cache_hit(names, name, at);
    assert(chosen == at);
}

/// The place of the file in which a wallpaper with the given file name is
/// found on disk, if there is one.
pub fn find_cached(names: &Vec<String>, name: &str) -> (r: Option<usize>)
    ensures
        match r {
            Some(at) => is_cache_hit(texts(names@), name@, at as int) && cached_at(
                texts(names@),
                name@,
            ) == Some(at as int),
            None => is_cache_miss(texts(names@), name@) && cached_at(texts(names@), name@)
                is None,
        },
{
    let wanted = chars_of(name);
    let mut i: usize = names.len();
    while i > 0
        invariant
            i <= names.len(),
            wanted@ == name@,
            forall|later: int|
                i <= later < names@.len() ==> !name@.is_prefix_of(#[trigger] texts(names@)[later]),
        decreases i,
    {
        i -= 1;
        let candidate = chars_of(names[i].as_str());
        if starts_with(&candidate, &wanted) {
            proof {
                lemma_cached_at(texts(names@), name@, i as int);
            }
            return Some(i);
        }
    }
    None
}

} // verus!

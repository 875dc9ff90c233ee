//! File names: where a path's last component ends in an extension, and where
//! an output is stored.
//!
//! Paths are taken apart and put together by `std::path`, so that a path
//! means here what it means to the file system. What happens to the file name
//! once it is in hand is decided here.

use vstd::prelude::*;
use crate::text::{chars_of, string_of};

verus! {

/// The last component of `path` as `std::path::Path::file_name` gives it on
/// the platform the library is built for: none where the path is empty, is a
/// root, or ends in `..`.
pub uninterp spec fn file_name_of(path: Seq<char>) -> Option<Seq<char>>;

/// `name` put below `directory` as `std::path::Path::join` does on the
/// platform the library is built for.
pub uninterp spec fn joined(directory: Seq<char>, name: Seq<char>) -> Seq<char>;

/// Calls `std::path::Path::file_name`. The path is text, so its last
/// component is text too and is handed back unchanged; the contract gives
/// that component the name `file_name_of`.
#[verifier::external_body]
pub(crate) fn last_component(path: &str) -> (name: Option<String>)
    ensures
        match name {
            Some(n) => file_name_of(path@) == Some(n@),
            None => file_name_of(path@) is None,
        },
{
    match std::path::Path::new(path).file_name() {
        Some(name) => Some(name.to_string_lossy().into_owned()),
        None => None,
    }
}

/// Calls `std::path::Path::join`. Both parts are text, so the joined path is
/// text too; the contract gives it the name `joined`.
#[verifier::external_body]
pub(crate) fn join(directory: &str, name: &str) -> (path: String)
    ensures
        path@ == joined(directory@, name@),
{
    std::path::Path::new(directory).join(name).to_string_lossy().into_owned()
}

/// Whether the last `.` of `name` stands at `i`.
pub open spec fn is_last_dot(name: Seq<char>, i: int) -> bool {
    &&& 0 <= i < name.len()
    &&& name[i] == '.'
    &&& forall|j: int| i < j < name.len() ==> name[j] != '.'
}

/// Where `name` parts into stem and extension: at its last `.`, unless that
/// is its first character or the name is `..`.
pub open spec fn split_point(name: Seq<char>) -> Option<int> {
    if name != seq!['.', '.'] && exists|i: int| 0 < i && is_last_dot(name, i) {
        Some(choose|i: int| 0 < i && is_last_dot(name, i))
    } else {
        None
    }
}

/// What follows the last `.` of a file name, if the name has such a part.
pub open spec fn name_extension_of(name: Seq<char>) -> Option<Seq<char>> {
    match split_point(name) {
        Some(i) => Some(name.skip(i + 1)),
        None => None,
    }
}

/// What stands before the extension of a file name: the whole name where it
/// has no extension.
pub open spec fn name_stem_of(name: Seq<char>) -> Seq<char> {
    match split_point(name) {
        Some(i) => name.take(i),
        None => name,
    }
}

/// The extension of the file that `path` names.
pub open spec fn extension_of(path: Seq<char>) -> Option<Seq<char>> {
    match file_name_of(path) {
        Some(name) => name_extension_of(name),
        None => None,
    }
}

/// The stem of the file that `path` names.
pub open spec fn stem_of(path: Seq<char>) -> Option<Seq<char>> {
    match file_name_of(path) {
        Some(name) => Some(name_stem_of(name)),
        None => None,
    }
}

/// Two indices that both hold the last `.` of a name are one index.
proof fn lemma_last_dot_unique(name: Seq<char>, i: int, j: int)
    requires
        is_last_dot(name, i),
        is_last_dot(name, j),
    ensures
        i == j,
{
}

/// Finds the index at which `name` parts into stem and extension.
fn find_split(name: &Vec<char>) -> (at: Option<usize>)
    ensures
        match at {
            Some(i) => split_point(name@) == Some(i as int) && 0 < i < name.len(),
            None => split_point(name@) is None,
        },
{
    if name.len() == 2 && name[0] == '.' && name[1] == '.' {
        assert(name@ =~= seq!['.', '.']);
        return None;
    }
    assert(name@ != seq!['.', '.']);
    let mut i: usize = name.len();
    while i > 0
        invariant
            i <= name.len(),
            name@ != seq!['.', '.'],
            forall|j: int| i <= j < name.len() ==> name@[j] != '.',
        decreases i,
    {
        i -= 1;
        if name[i] == '.' {
            assert(is_last_dot(name@, i as int));
            if i == 0 {
                assert forall|k: int| 0 < k implies !is_last_dot(name@, k) by {
                    if is_last_dot(name@, k) {
                        lemma_last_dot_unique(name@, k, 0);
                    }
                }
                return None;
            }
            let ghost chosen = choose|k: int| 0 < k && is_last_dot(name@, k);
            assert(chosen == i) by {
                lemma_last_dot_unique(name@, chosen, i as int);
            }
            return Some(i);
        }
    }
    assert(forall|k: int| 0 < k ==> !is_last_dot(name@, k));
    None
}

/// The extension of the file name `name`: what follows its last `.`. A name
/// without a `.`, or with its only `.` in front, has none.
pub fn name_extension(name: &str) -> (extension: Option<String>)
    ensures
        match extension {
            Some(e) => name_extension_of(name@) == Some(e@),
            None => name_extension_of(name@) is None,
        },
{
    let chars = chars_of(name);
    match find_split(&chars) {
        Some(i) => {
            let mut rest: Vec<char> = Vec::new();
            let mut k: usize = i + 1;
            while k < chars.len()
                invariant
                    i < k <= chars.len(),
                    rest@ == chars@.subrange(i + 1, k as int),
                decreases chars.len() - k,
            {
                rest.push(chars[k]);
                k += 1;
            }
            Some(string_of(&rest))
        },
        None => None,
    }
}

/// The stem of the file name `name`: what stands before its extension.
pub fn name_stem(name: &str) -> (stem: String)
    ensures
        stem@ == name_stem_of(name@),
{
    let chars = chars_of(name);
    match find_split(&chars) {
        Some(i) => {
            let mut front: Vec<char> = Vec::new();
            let mut k: usize = 0;
            while k < i
                invariant
                    k <= i < chars.len(),
                    front@ == chars@.take(k as int),
                decreases i - k,
            {
                front.push(chars[k]);
                k += 1;
            }
            string_of(&front)
        },
        None => string_of(&chars),
    }
}

/// The extension of the file that `path` names, if it has one.
pub fn extension(path: &str) -> (extension: Option<String>)
    ensures
        match extension {
            Some(e) => extension_of(path@) == Some(e@),
            None => extension_of(path@) is None,
        },
{
    match last_component(path) {
        Some(name) => name_extension(name.as_str()),
        None => None,
    }
}

/// The stem of the file that `path` names, if it names one.
pub fn file_stem(path: &str) -> (stem: Option<String>)
    ensures
        match stem {
            Some(s) => stem_of(path@) == Some(s@),
            None => stem_of(path@) is None,
        },
{
    match last_component(path) {
        Some(name) => Some(name_stem(name.as_str())),
        None => None,
    }
}

} // verus!

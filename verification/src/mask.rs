//! Where the controller keeps the files that it bind-mounts over the
//! votable nodes it pins.

use vstd::prelude::*;
use crate::text::chars_of;

verus! {

/// The parent of a path, as `std::path::Path::parent` gives it.
pub uninterp spec fn path_parent(path: Seq<char>) -> Option<Seq<char>>;

/// A component of `s` (between separators) that is `.` or `..` starts at `i`.
pub open spec fn dot_component_at(s: Seq<char>, i: int) -> bool {
    &&& 0 <= i < s.len()
    &&& i == 0 || s[i - 1] == '/'
    &&& s[i] == '.'
    &&& (i + 1 == s.len() || s[i + 1] == '/') || (s[i + 1] == '.' && (i + 2 == s.len() || s[i
        + 2] == '/'))
}

/// A path whose components are plain names: not empty, no `//`, no
/// trailing `/`, and no `.` or `..` component.
pub open spec fn is_plain_path(s: Seq<char>) -> bool {
    &&& s.len() > 0
    &&& s.last() != '/'
    &&& forall|i: int| 0 <= i < s.len() - 1 ==> !(s[i] == '/' && #[trigger] s[i + 1] == '/')
    &&& forall|i: int| !#[trigger] dot_component_at(s, i)
}

/// The position of the last `c` in `s`, or -1.
pub open spec fn last_index_of(s: Seq<char>, c: char) -> int
    decreases s.len(),
{
    if s.len() == 0 {
        -1
    } else if s.last() == c {
        s.len() - 1
    } else {
        last_index_of(s.drop_last(), c)
    }
}

/// A plain path without its final component: the text before the last `/`,
/// the root when that is the only `/`, or the empty path when there is none.
pub open spec fn plain_parent(s: Seq<char>) -> Seq<char> {
    let k = last_index_of(s, '/');
    if k < 0 {
        Seq::empty()
    } else if k == 0 {
        seq!['/']
    } else {
        s.subrange(0, k)
    }
}

/// A path with one more component, as `std::path::Path::join` gives it on
/// Unix: an absolute component replaces the base; otherwise the component is
/// appended, after a `/` when the base is not empty and does not end in one.
pub open spec fn path_join(base: Seq<char>, component: Seq<char>) -> Seq<char> {
    if component.len() > 0 && component[0] == '/' {
        component
    } else if base.len() > 0 && base.last() != '/' {
        base + seq!['/'] + component
    } else {
        base + component
    }
}

/// Calls `std::path::Path::parent` on `path`. Claims that the result is a
/// function of the path's text and what its documentation gives: the empty
/// path and the root have no parent, and a path of plain names loses its
/// final component (a one-component relative path gives the empty path).
/// What it gives for paths with `.`, `..`, `//` or a trailing `/` is not
/// stated.
#[verifier::external_body]
fn parent_of(path: &str) -> (r: Option<String>)
    ensures
        match r {
            Some(p) => path_parent(path@) == Some(p@),
            None => path_parent(path@) is None,
        },
        (path@.len() == 0 || path@ == seq!['/']) ==> r is None,
        is_plain_path(path@) ==> (r is Some && r->0@ == plain_parent(path@)),
{
    match std::path::Path::new(path).parent() {
        Some(parent) => Some(parent.to_string_lossy().into_owned()),
        None => None,
    }
}

/// Joins `component` to `base` as `std::path::Path::join` does on Unix.
fn join(base: &str, component: &str) -> (r: String)
    ensures
        r@ == path_join(base@, component@),
{
    let base_chars = chars_of(base);
    let component_chars = chars_of(component);
    if component_chars.len() > 0 && component_chars[0] == '/' {
        return String::from_str(component);
    }
    let mut out = String::from_str(base);
    if base_chars.len() > 0 && base_chars[base_chars.len() - 1] != '/' {
        proof {
            reveal_strlit("/");
        }
        out.append("/");
    }
    out.append(component);
    out
}

/// The executable has no parent directory to keep masks in.
#[derive(Clone, Copy, Debug, PartialEq, Eq, Structural)]
pub struct NoParentDirectory;

/// The name of the masks directory.
pub open spec fn masks_dir_name() -> Seq<char> {
    "masks"@
}

/// The masks directory: `masks` next to the executable, that is, the
/// executable's parent directory followed by `/masks` (or just `masks` when
/// the parent is empty or already ends in `/`). The empty path and the root
/// have no parent.
pub fn masks_dir(executable: &str) -> (r: Result<String, NoParentDirectory>)
    ensures
        executable@.len() == 0 || executable@ == seq!['/'] ==> r is Err,
        is_plain_path(executable@) ==> (r is Ok && r->Ok_0@ == path_join(
            plain_parent(executable@),
            masks_dir_name(),
        )),
        match path_parent(executable@) {
            Some(parent) => r matches Ok(dir) && dir@ == path_join(parent, masks_dir_name())
                && dir@ == if parent.len() > 0 && parent.last() != '/' {
                parent + "/masks"@
            } else {
                parent + "masks"@
            },
            None => r is Err,
        },
{
    proof {
        reveal_strlit("masks");
        reveal_strlit("/masks");
    }
    match parent_of(executable) {
        Some(parent) => {
            let dir = join(parent.as_str(), "masks");
            proof {
                assert(parent@ + seq!['/'] + "masks"@ =~= parent@ + "/masks"@);
            }
            Ok(dir)
        },
        None => Err(NoParentDirectory),
    }
}

} // verus!

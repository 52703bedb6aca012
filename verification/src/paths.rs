//! File-system paths as text: where a project keeps its `node_modules/.bin`
//! directory, and the parent of a path.
use vstd::prelude::*;


verus! {

/// A single plain file name: not empty, and holding no character that a
/// path parser on Unix or Windows reads as a separator, root or prefix.
pub open spec fn plain_name(comp: Seq<char>) -> bool {
    comp.len() > 0 && !comp.contains('/') && !comp.contains('\\') && !comp.contains(':')
}

/// What `std::path::PathBuf::push` makes of the path `base` extended by
/// `comp`, read back as text.
pub uninterp spec fn path_pushed(base: Seq<char>, comp: Seq<char>) -> Seq<char>;

/// `std::path::PathBuf::push`: `base` extended by `comp`, by the rules of the
/// platform the crate is built for. The contract ties the result to
/// `path_pushed`, and for a plain name other than `.` and `..` states what
/// the documentation says of a relative path: it ends the result. Where the
/// separator goes, and how a base with a verbatim prefix (`\\?\`) is
/// normalized, is left to `path_pushed`.
#[verifier::external_body]
fn push_component(base: &str, comp: &str) -> (r: String)
    ensures
        r@ == path_pushed(base@, comp@),
        plain_name(comp@) && comp@ != "."@ && comp@ != ".."@ ==> comp@.is_suffix_of(r@),
{
    let mut p = std::path::PathBuf::from(base);
    p.push(comp);
    p.to_string_lossy().into_owned()
}

/// The `node_modules` directory of the directory `cwd`.
pub open spec fn node_modules_of(cwd: Seq<char>) -> Seq<char> {
    path_pushed(cwd, "node_modules"@)
}

/// The `node_modules/.bin` directory of the directory `cwd`.
pub open spec fn bin_dir_of(cwd: Seq<char>) -> Seq<char> {
    path_pushed(node_modules_of(cwd), ".bin"@)
}

/// `.bin` is a plain name, and neither `.` nor `..`.
proof fn lemma_dot_bin_plain()
    ensures
        plain_name(".bin"@),
        ".bin"@ != "."@,
        ".bin"@ != ".."@,
{
    reveal_strlit(".bin");
    reveal_strlit(".");
    reveal_strlit("..");
    assert(".bin"@.len() != "."@.len());
    assert(".bin"@.len() != ".."@.len());
    assert(!".bin"@.contains('/')) by {
        if ".bin"@.contains('/') {
            let i = choose|i: int| 0 <= i < ".bin"@.len() && ".bin"@[i] == '/';
        }
    }
    assert(!".bin"@.contains('\\')) by {
        if ".bin"@.contains('\\') {
            let i = choose|i: int| 0 <= i < ".bin"@.len() && ".bin"@[i] == '\\';
        }
    }
    assert(!".bin"@.contains(':')) by {
        if ".bin"@.contains(':') {
            let i = choose|i: int| 0 <= i < ".bin"@.len() && ".bin"@[i] == ':';
        }
    }
}

/// The `node_modules` directory of the directory `cwd`.
pub fn node_modules_dir(cwd: &str) -> (r: String)
    ensures
        r@ == node_modules_of(cwd@),
{
    push_component(cwd, "node_modules")
}

/// The `node_modules/.bin` directory of the directory `cwd`; it ends with
/// `.bin`.
pub fn bin_dir(cwd: &str) -> (r: String)
    ensures
        r@ == bin_dir_of(cwd@),
        ".bin"@.is_suffix_of(r@),
{
    let nm = node_modules_dir(cwd);
    proof {
        lemma_dot_bin_plain();
    }
    push_component(nm.as_str(), ".bin")
}

/// What `std::path::Path::parent` gives for the path `p`, read back as text:
/// `None` where it gives `None`.
pub uninterp spec fn path_parent(p: Seq<char>) -> Option<Seq<char>>;

/// `std::path::Path::parent` on the path `p`, read back with `Path::to_str`.
/// The contract ties the result to `path_parent` of `p`, and states what the
/// documentation says: a parent is the path without its final component, so
/// a shorter prefix of `p`, and the empty path has none. Which paths have a
/// parent and where it ends (separators, `.` components, the root, prefixes)
/// is left to `path_parent`.
#[verifier::external_body]
pub(crate) fn parent_of(p: &str) -> (r: Option<&str>)
    ensures
        match r {
            Some(q) => path_parent(p@) == Some(q@),
            None => path_parent(p@) is None,
        },
        p@.len() == 0 ==> r is None,
        r matches Some(q) ==> q@.is_prefix_of(p@) && q@.len() < p@.len(),
{
    std::path::Path::new(p).parent().and_then(std::path::Path::to_str)
}

/// The parent of the parent of `p`: the third path that
/// `Path::ancestors` yields, after `p` itself and its parent.
pub open spec fn grandparent(p: Seq<char>) -> Option<Seq<char>> {
    match path_parent(p) {
        Some(q) => path_parent(q),
        None => None,
    }
}

} // verus!

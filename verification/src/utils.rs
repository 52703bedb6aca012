//! Helpers for shells that run on Windows.
use vstd::prelude::*;

use crate::shells::Shell;
use crate::text::push_char;
use crate::Platform;
use std::path::{Component, Prefix};

verus! {

/// The kind of a Windows path prefix, as far as the crate tells them apart.
#[derive(Debug, Clone, Copy, PartialEq, Eq, Structural)]
pub enum PathPrefix {
    /// A drive letter, such as `C:`, by its byte.
    Disk(u8),
    /// Any other prefix: verbatim, UNC or device.
    Other,
}

/// One component of a path, as `Path::components` yields it; a normal
/// component holds its text, or `None` when that is not valid UTF-8.
#[derive(Debug, PartialEq, Eq)]
pub enum PathComponent {
    Prefix(PathPrefix),
    RootDir,
    CurDir,
    ParentDir,
    Normal(Option<String>),
}

/// A path component as text: what [`PathComponent`] holds, with the text of
/// a normal component by its characters.
pub enum ComponentView {
    Prefix(PathPrefix),
    RootDir,
    CurDir,
    ParentDir,
    Normal(Option<Seq<char>>),
}

impl View for PathComponent {
    type V = ComponentView;

    open spec fn view(&self) -> ComponentView {
        match self {
            PathComponent::Prefix(p) => ComponentView::Prefix(*p),
            PathComponent::RootDir => ComponentView::RootDir,
            PathComponent::CurDir => ComponentView::CurDir,
            PathComponent::ParentDir => ComponentView::ParentDir,
            PathComponent::Normal(Some(s)) => ComponentView::Normal(Some(s@)),
            PathComponent::Normal(None) => ComponentView::Normal(None),
        }
    }
}

/// The components of a list, as text.
pub open spec fn component_views(comps: Seq<PathComponent>) -> Seq<ComponentView> {
    comps.map_values(|c: PathComponent| c@)
}

/// What `std::path::Path::components` yields for the path `p`, as text.
pub uninterp spec fn path_components(p: Seq<char>) -> Seq<ComponentView>;

/// `std::path::Path::components` on the path `p`, by the rules of the
/// platform the crate is built for, each component converted one for one.
/// The contract only ties the result to `path_components` of `p`; how a path
/// is taken apart is left to that name.
#[verifier::external_body]
fn components_of(p: &str) -> (r: Vec<PathComponent>)
    ensures
        component_views(r@) == path_components(p@),
{
    std::path::Path::new(p).components().map(|c| match c {
        Component::Prefix(q) => PathComponent::Prefix(match q.kind() {
            Prefix::Disk(d) => PathPrefix::Disk(d),
            Prefix::Verbatim(_) | Prefix::VerbatimUNC(..) | Prefix::VerbatimDisk(_)
            | Prefix::DeviceNS(_) | Prefix::UNC(..) => PathPrefix::Other,
        }),
        Component::RootDir => PathComponent::RootDir,
        Component::CurDir => PathComponent::CurDir,
        Component::ParentDir => PathComponent::ParentDir,
        Component::Normal(s) => PathComponent::Normal(s.to_str().map(String::from)),
    }).collect()
}

/// Why a path has no Unix-like form.
#[derive(Debug, Clone, Copy, PartialEq, Eq, Structural)]
pub enum UnixPathError {
    /// "Unsupported path prefix": a prefix other than a drive letter.
    UnsupportedPrefix,
    /// A component is not valid UTF-8.
    NotUnicode,
}

/// The text that a component adds to the Unix-like form, `None` for the
/// root directory, which adds nothing.
pub open spec fn component_text(c: ComponentView) -> Result<Option<Seq<char>>, UnixPathError> {
    match c {
        ComponentView::Prefix(PathPrefix::Disk(d)) => Ok(Some(seq![d as char])),
        ComponentView::Prefix(PathPrefix::Other) => Err(UnixPathError::UnsupportedPrefix),
        ComponentView::RootDir => Ok(None),
        ComponentView::CurDir => Ok(Some(seq!['.'])),
        ComponentView::ParentDir => Ok(Some(seq!['.', '.'])),
        ComponentView::Normal(Some(s)) => Ok(Some(s)),
        ComponentView::Normal(None) => Err(UnixPathError::NotUnicode),
    }
}

/// `/` followed by the text of each component and a `/`; the first failing
/// component decides the error.
pub open spec fn unix_like_prefix(comps: Seq<ComponentView>) -> Result<Seq<char>, UnixPathError>
    decreases comps.len(),
{
    if comps.len() == 0 {
        Ok(seq!['/'])
    } else {
        match unix_like_prefix(comps.drop_last()) {
            Err(e) => Err(e),
            Ok(acc) => match component_text(comps.last()) {
                Err(e) => Err(e),
                Ok(None) => Ok(acc),
                Ok(Some(t)) => Ok(acc + t + seq!['/']),
            },
        }
    }
}

/// The Unix-like form of a path with the components `comps`, as Git Bash
/// writes it: `C:\Users\me` becomes `/C/Users/me`, and the root alone `/`.
pub open spec fn unix_like_path(comps: Seq<ComponentView>) -> Result<Seq<char>, UnixPathError> {
    match unix_like_prefix(comps) {
        Err(e) => Err(e),
        Ok(s) => if s == seq!['/'] {
            Ok(s)
        } else {
            Ok(s.drop_last())
        },
    }
}

/// The Unix-like form of the path `path`, as Git Bash writes it: the
/// [`unix_like_path`] of its components.
pub fn to_unix_like_path(path: &str) -> (r: Result<String, UnixPathError>)
    ensures
        match r {
            Ok(s) => unix_like_path(path_components(path@)) == Ok::<_, UnixPathError>(s@),
            Err(e) => unix_like_path(path_components(path@)) == Err::<Seq<char>, _>(e),
        },
{
    let comps = components_of(path);
    unix_like_from_components(&comps)
}

/// The Unix-like form of a path with the components `comps`. See
/// [`unix_like_path`].
pub fn unix_like_from_components(comps: &Vec<PathComponent>) -> (r: Result<String, UnixPathError>)
    ensures
        match r {
            Ok(s) => unix_like_path(component_views(comps@)) == Ok::<_, UnixPathError>(s@),
            Err(e) => unix_like_path(component_views(comps@)) == Err::<Seq<char>, _>(e),
        },
{
    let ghost cv = component_views(comps@);
    let mut result = String::new();
    push_char(&mut result, '/');
    let mut i: usize = 0;
    while i < comps.len()
        invariant
            i <= comps.len(),
            cv == component_views(comps@),
            unix_like_prefix(cv.take(i as int)) == Ok::<_, UnixPathError>(result@),
        decreases comps.len() - i,
    {
        proof {
            assert(cv.take(i + 1).drop_last() =~= cv.take(i as int));
            assert(cv.take(i + 1).last() == comps@[i as int]@);
        }
        let ghost before = result@;
        let ghost t = component_text(comps@[i as int]@);
        match &comps[i] {
            PathComponent::Prefix(PathPrefix::Disk(d)) => {
                push_char(&mut result, *d as char);
            },
            PathComponent::Prefix(PathPrefix::Other) => {
                proof {
                    lemma_unix_like_prefix_err(cv, (i + 1) as nat);
                }
                return Err(UnixPathError::UnsupportedPrefix);
            },
            PathComponent::Normal(Some(p)) => {
                result.append(p.as_str());
            },
            PathComponent::Normal(None) => {
                proof {
                    lemma_unix_like_prefix_err(cv, (i + 1) as nat);
                }
                return Err(UnixPathError::NotUnicode);
            },
            PathComponent::CurDir => {
                push_char(&mut result, '.');
            },
            PathComponent::ParentDir => {
                push_char(&mut result, '.');
                push_char(&mut result, '.');
            },
            PathComponent::RootDir => {
                i = i + 1;
                continue;
            },
        }
        push_char(&mut result, '/');
        assert(t matches Ok(Some(txt)) && result@ =~= before + txt + seq!['/']);
        i = i + 1;
    }
    assert(cv.take(comps.len() as int) =~= cv);
    proof {
        reveal_strlit("/");
    }
    assert("/"@ =~= seq!['/']);
    if !crate::text::str_eq(result.as_str(), "/") {
        proof {
            lemma_unix_like_prefix_starts(cv);
        }
        pop_char(&mut result);
    }
    Ok(result)
}

/// An error on the first `n` components is the error on all of them.
proof fn lemma_unix_like_prefix_err(comps: Seq<ComponentView>, n: nat)
    requires
        n <= comps.len(),
        unix_like_prefix(comps.take(n as int)) is Err,
    ensures
        unix_like_prefix(comps) == unix_like_prefix(comps.take(n as int)),
    decreases comps.len() - n,
{
    if n < comps.len() {
        assert(comps.take((n + 1) as int).drop_last() =~= comps.take(n as int));
        lemma_unix_like_prefix_err(comps, n + 1);
    } else {
        assert(comps.take(n as int) =~= comps);
    }
}

/// The Unix-like prefix is never empty.
proof fn lemma_unix_like_prefix_starts(comps: Seq<ComponentView>)
    ensures
        unix_like_prefix(comps) matches Ok(s) ==> s.len() > 0,
    decreases comps.len(),
{
    if comps.len() > 0 {
        lemma_unix_like_prefix_starts(comps.drop_last());
    }
}

/// `String::pop`: takes off the last character of a non-empty string.
#[verifier::external_body]
fn pop_char(s: &mut String)
    requires
        old(s)@.len() > 0,
    ensures
        final(s)@ == old(s)@.drop_last(),
{
    s.pop();
}

/// Whether `shell` is Git Bash: any shell but PowerShell, on Windows.
pub fn is_git_bash<S: Shell>(shell: &S, platform: Platform) -> (r: bool)
    ensures
        r == (platform == Platform::Windows && shell.spec_name() != "powershell"@),
{
    match platform {
        Platform::Windows => !crate::text::str_eq(shell.name(), "powershell"),
        Platform::Unix => false,
    }
}

} // verus!

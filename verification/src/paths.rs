//! What std's `Path` makes of a path given as text. The library's decisions
//! on paths go through these few calls, one std function each.
use vstd::prelude::*;

verus! {

/// One component of a path, as `Path::components` yields it.
#[derive(Clone, Debug)]
pub enum PathPart {
    Prefix,
    RootDir,
    CurDir,
    ParentDir,
    Normal(String),
}

/// A path component, as a spec value.
pub enum PathPartView {
    Prefix,
    RootDir,
    CurDir,
    ParentDir,
    Normal(Seq<char>),
}

impl View for PathPart {
    type V = PathPartView;

    open spec fn view(&self) -> PathPartView {
        match self {
            PathPart::Prefix => PathPartView::Prefix,
            PathPart::RootDir => PathPartView::RootDir,
            PathPart::CurDir => PathPartView::CurDir,
            PathPart::ParentDir => PathPartView::ParentDir,
            PathPart::Normal(name) => PathPartView::Normal(name@),
        }
    }
}

/// Path components, as spec values.
pub open spec fn parts_view(parts: Seq<PathPart>) -> Seq<PathPartView> {
    parts.map_values(|p: PathPart| p@)
}

/// What `Path::components` yields for a path.
pub uninterp spec fn path_parts(path: Seq<char>) -> Seq<PathPartView>;

/// `Path::new(path).components()`, each component's name read lossily as
/// UTF-8.
#[verifier::external_body]
pub(crate) fn components(path: &str) -> (parts: Vec<PathPart>)
    ensures
        parts_view(parts@) == path_parts(path@),
{
    std::path::Path::new(path)
        .components()
        .map(|component| match component {
            std::path::Component::Prefix(_) => PathPart::Prefix,
            std::path::Component::RootDir => PathPart::RootDir,
            std::path::Component::CurDir => PathPart::CurDir,
            std::path::Component::ParentDir => PathPart::ParentDir,
            std::path::Component::Normal(name) => PathPart::Normal(name.to_string_lossy().into_owned()),
        })
        .collect()
}

/// What `Path::strip_prefix` leaves of `path` below `root`, or `path` itself
/// when it does not lie below `root`.
pub uninterp spec fn path_below(root: Seq<char>, path: Seq<char>) -> Seq<char>;

/// `Path::new(path).strip_prefix(root)`, as text, or `path` when it fails.
#[verifier::external_body]
pub(crate) fn strip_root(root: &str, path: &str) -> (r: String)
    ensures
        r@ == path_below(root@, path@),
{
    match std::path::Path::new(path).strip_prefix(root) {
        Ok(relative) => relative.to_string_lossy().into_owned(),
        Err(_) => path.to_owned(),
    }
}

/// What `Path::is_absolute` says of a path.
pub uninterp spec fn absolute_path(path: Seq<char>) -> bool;

/// `Path::new(path).is_absolute()`.
#[verifier::external_body]
pub(crate) fn is_absolute_path(path: &str) -> (r: bool)
    ensures
        r == absolute_path(path@),
{
    std::path::Path::new(path).is_absolute()
}

/// What `Path::file_stem` makes of a path, read as UTF-8: the last
/// component's name without its extension.
pub uninterp spec fn path_stem(path: Seq<char>) -> Option<Seq<char>>;

/// `Path::new(path).file_stem()`, as text.
#[verifier::external_body]
pub(crate) fn file_stem(path: &str) -> (r: Option<String>)
    ensures
        match r {
            Some(stem) => path_stem(path@) == Some(stem@),
            None => path_stem(path@) is None,
        },
{
    std::path::Path::new(path).file_stem().and_then(|stem| stem.to_str()).map(str::to_owned)
}

} // verus!

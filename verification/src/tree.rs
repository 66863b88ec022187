//! Trees: a directory of pictures and the marker that names it wherever the
//! directory moves.

use crate::paths::{parent_dir, parent_of};
use vstd::prelude::*;
use vstd::string::*;

verus! {

/// The glob that names the pictures of a tree: regular files that end in
/// `.jpg` or `.jpeg`, in any directory below the root. It is to be matched
/// without regard to case.
pub const PICTURE_GLOB: &'static str = "*.{jpg,jpeg}";

/// A tree of pictures: the directory that the marker file lies in, and the
/// identifier that the marker file gives it.
#[derive(Clone, Debug, PartialEq, Eq)]
pub struct Tree {
    /// The identifier from the marker file. It stays the same when the tree
    /// moves.
    pub marker: String,
    /// The slash path of the directory that holds the marker file.
    pub root: String,
}

/// What a `Tree` holds, as mathematical values.
pub struct TreeView {
    pub marker: Seq<char>,
    pub root: Seq<char>,
}

impl View for Tree {
    type V = TreeView;

    open spec fn view(&self) -> TreeView {
        TreeView { marker: self.marker@, root: self.root@ }
    }
}

/// Why a marker path gave no tree.
#[derive(Clone, Debug, PartialEq, Eq)]
pub enum TreeError {
    /// There is no marker file at the path: the tree is not there now. This
    /// is expected to happen, and the tree is passed over.
    NotFound(String),
    /// The marker file is there and cannot be read or understood, or the
    /// path has no directory part. This is a fault in the configuration.
    Other { path: String, source: String },
}

/// What a `TreeError` holds, as mathematical values.
pub enum TreeErrorView {
    NotFound(Seq<char>),
    Other { path: Seq<char>, source: Seq<char> },
}

impl View for TreeError {
    type V = TreeErrorView;

    open spec fn view(&self) -> TreeErrorView {
        match self {
            TreeError::NotFound(path) => TreeErrorView::NotFound(path@),
            TreeError::Other { path, source } => TreeErrorView::Other {
                path: path@,
                source: source@,
            },
        }
    }
}

/// What became of reading a marker file.
#[derive(Clone, Debug, PartialEq, Eq)]
pub enum MarkerRead {
    /// The file was read and holds this identifier.
    Found(String),
    /// There is no file at the path.
    Missing,
    /// The file is there, but reading or parsing it failed for this reason.
    Unreadable(String),
}

/// What a `MarkerRead` holds, as mathematical values.
pub enum MarkerReadView {
    Found(Seq<char>),
    Missing,
    Unreadable(Seq<char>),
}

impl View for MarkerRead {
    type V = MarkerReadView;

    open spec fn view(&self) -> MarkerReadView {
        match self {
            MarkerRead::Found(id) => MarkerReadView::Found(id@),
            MarkerRead::Missing => MarkerReadView::Missing,
            MarkerRead::Unreadable(reason) => MarkerReadView::Unreadable(reason@),
        }
    }
}

/// What is said of a marker path without a directory part.
pub open spec fn no_parent_message(marker_path: Seq<char>) -> Seq<char> {
    "Could not split parent directory of '"@ + marker_path + "'"@
}

/// The tree that a marker path and the reading of its file give, or the
/// reason why there is none. A file that is not there is `NotFound`, whatever
/// the path; an identifier read from a path without a directory part is a
/// fault.
pub open spec fn resolution(marker_path: Seq<char>, read: MarkerReadView) -> Result<
    TreeView,
    TreeErrorView,
> {
    match read {
        MarkerReadView::Missing => Err(TreeErrorView::NotFound(marker_path)),
        MarkerReadView::Unreadable(reason) => Err(
            TreeErrorView::Other { path: marker_path, source: reason },
        ),
        MarkerReadView::Found(id) => match parent_of(marker_path) {
            Some(root) => Ok(TreeView { marker: id, root }),
            None => Err(
                TreeErrorView::Other { path: marker_path, source: no_parent_message(marker_path) },
            ),
        },
    }
}

/// The view of a resolution's outcome.
pub open spec fn resolved_view(outcome: Result<Tree, TreeError>) -> Result<
    TreeView,
    TreeErrorView,
> {
    match outcome {
        Ok(tree) => Ok(tree@),
        Err(error) => Err(error@),
    }
}

impl TreeErrorView {
    /// The words for the operator.
    pub open spec fn message(self) -> Seq<char> {
        match self {
            TreeErrorView::NotFound(path) => "marker file not found at: '"@ + path + "'"@,
            TreeErrorView::Other { path, source } => "error reading marker file at '"@ + path
                + "': "@ + source,
        }
    }
}

impl TreeError {
    /// The words for the operator: what went wrong, and at which path.
    pub fn message(&self) -> (text: String)
        ensures
            text@ == self@.message(),
    {
        match self {
            TreeError::NotFound(path) => {
                let mut text = "marker file not found at: '".to_owned();
                text.append(path.as_str());
                text.append("'");
                text
            },
            TreeError::Other { path, source } => {
                let mut text = "error reading marker file at '".to_owned();
                text.append(path.as_str());
                text.append("': ");
                text.append(source.as_str());
                text
            },
        }
    }
}

impl Tree {
    /// Resolves a marker path into a tree, given what reading the marker
    /// file gave.
    ///
    /// The tree's root is the directory part of the marker path and its
    /// marker is the identifier that was read. A missing file gives
    /// `TreeError::NotFound`; a file that could not be read or understood,
    /// and an identifier read from a path without a directory part, give
    /// `TreeError::Other`.
    pub fn resolve(marker_path: &str, read: MarkerRead) -> (outcome: Result<Tree, TreeError>)
        ensures
            resolved_view(outcome) == resolution(marker_path@, read@),
    {
        match read {
            MarkerRead::Missing => Err(TreeError::NotFound(marker_path.to_owned())),
            MarkerRead::Unreadable(reason) => Err(
                TreeError::Other { path: marker_path.to_owned(), source: reason },
            ),
            MarkerRead::Found(id) => match parent_dir(marker_path) {
                Some(root) => Ok(Tree { marker: id, root }),
                None => {
                    let mut source = "Could not split parent directory of '".to_owned();
                    source.append(marker_path);
                    source.append("'");
                    Err(TreeError::Other { path: marker_path.to_owned(), source })
                },
            },
        }
    }
}

/// Missing-marker skip: a marker file that is not there gives `NotFound`
/// with the marker's path, and only that does.
pub proof fn lemma_missing_marker_not_found(marker_path: Seq<char>, read: MarkerReadView)
    ensures
        resolution(marker_path, read) is Err && resolution(marker_path, read)->Err_0 is NotFound
            <==> read is Missing,
        resolution(marker_path, MarkerReadView::Missing) == Err::<TreeView, TreeErrorView>(
            TreeErrorView::NotFound(marker_path),
        ),
{
}

} // verus!

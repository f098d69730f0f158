use vstd::prelude::*;
use crate::error::RenameError;
use crate::finder::{rename_spec, rename_text};

verus! {

/// The last component of a candidate path, as the filesystem gave it.
#[derive(Clone, Debug, PartialEq, Eq)]
pub enum Leaf {
    /// The path has no file-name component (it ends in `..`, or is a root).
    Missing,
    /// The file name is not valid text.
    NotText,
    /// The file name.
    Text(String),
}

/// One item of the walk over the search glob.
#[derive(Clone, Debug, PartialEq, Eq)]
pub enum Entry {
    /// An entry the walk could not read; it is passed over.
    Unreadable,
    /// A path that the glob matched, by its last component.
    Found(Leaf),
}

/// What the walk does next.
#[derive(Clone, Debug, PartialEq, Eq)]
pub enum Action {
    /// Go on to the next entry; nothing is printed or moved.
    Continue,
    /// Report and move the file to this name in its own directory, then go on.
    Rename(String),
    /// Print the error and end the walk.
    Stop(RenameError),
}

/// The new file name for a leaf, or why it keeps its name; the checks run in
/// order: a file name exists, it is text, the pattern compiles, it matches.
pub open spec fn plan_spec(leaf: Leaf, find: Seq<char>, rep: Seq<char>) -> Result<
    Seq<char>,
    RenameError,
> {
    match leaf {
        Leaf::Missing => Err(RenameError::SourceNotFile),
        Leaf::NotText => Err(RenameError::UnsupportedFilename),
        Leaf::Text(name) => rename_spec(name@, find, rep),
    }
}

/// Plans the renaming of one candidate path from its last component.
pub fn plan_rename(leaf: &Leaf, find: &str, rep: &str) -> (r: Result<String, RenameError>)
    ensures
        r matches Ok(s) ==> plan_spec(*leaf, find@, rep@) == Ok::<Seq<char>, RenameError>(s@),
        r matches Err(e) ==> plan_spec(*leaf, find@, rep@) == Err::<Seq<char>, RenameError>(e),
{
    match leaf {
        Leaf::Missing => Err(RenameError::SourceNotFile),
        Leaf::NotText => Err(RenameError::UnsupportedFilename),
        Leaf::Text(name) => rename_text(name.as_str(), find, rep),
    }
}

/// The step that follows a plan: a missing match is skipped silently, a new
/// name is moved to, and any other error ends the walk.
pub open spec fn action_spec(planned: Result<Seq<char>, RenameError>) -> ActionView {
    match planned {
        Ok(s) => ActionView::Rename(s),
        Err(RenameError::PatternFindAbsent) => ActionView::Continue,
        Err(e) => ActionView::Stop(e),
    }
}

/// An [`Action`] with the new name as a sequence of characters.
pub enum ActionView {
    Continue,
    Rename(Seq<char>),
    Stop(RenameError),
}

impl View for Action {
    type V = ActionView;

    open spec fn view(&self) -> ActionView {
        match self {
            Action::Continue => ActionView::Continue,
            Action::Rename(s) => ActionView::Rename(s@),
            Action::Stop(e) => ActionView::Stop(*e),
        }
    }
}

/// Turns a plan into the walk's next step.
pub fn next_action(planned: Result<String, RenameError>) -> (r: Action)
    ensures
        planned matches Ok(s) ==> r@ == action_spec(Ok(s@)),
        planned matches Err(e) ==> r@ == action_spec(Err(e)),
{
    match planned {
        Ok(s) => Action::Rename(s),
        Err(RenameError::PatternFindAbsent) => Action::Continue,
        Err(e) => Action::Stop(e),
    }
}

/// The step for one entry of the walk: unreadable entries are passed over,
/// found paths are planned.
pub open spec fn entry_spec(entry: Entry, find: Seq<char>, rep: Seq<char>) -> ActionView {
    match entry {
        Entry::Unreadable => ActionView::Continue,
        Entry::Found(leaf) => action_spec(plan_spec(leaf, find, rep)),
    }
}

/// Decides what the walk does with one entry.
pub fn entry_action(entry: &Entry, find: &str, rep: &str) -> (r: Action)
    ensures
        r@ == entry_spec(*entry, find@, rep@),
{
    match entry {
        Entry::Unreadable => Action::Continue,
        Entry::Found(leaf) => next_action(plan_rename(leaf, find, rep)),
    }
}

/// The step after a move was tried: go on if it succeeded, stop on an I/O
/// error otherwise.
pub fn after_move(moved: bool) -> (r: Action)
    ensures
        moved ==> r@ == ActionView::Continue,
        !moved ==> r@ == ActionView::Stop(RenameError::Io),
{
    if moved {
        Action::Continue
    } else {
        Action::Stop(RenameError::Io)
    }
}

} // verus!

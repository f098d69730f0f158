use vstd::prelude::*;

verus! {

/// Why a candidate file was not renamed, or why the walk could not start.
#[derive(Clone, Copy, Debug, PartialEq, Eq, Structural)]
pub enum RenameError {
    /// Moving the file failed in the filesystem.
    Io,
    /// The find-pattern is not a valid regular expression.
    Regex,
    /// The search glob is not a valid glob expression.
    Glob,
    /// The find-pattern does not occur in the file name: the file is skipped.
    PatternFindAbsent,
    /// The path has no file-name component.
    SourceNotFile,
    /// The file name is not valid text.
    UnsupportedFilename,
}

} // verus!

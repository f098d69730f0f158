use vstd::prelude::*;
use crate::error::RenameError;

verus! {

/// The glob expression walked for a base directory and a file-name glob:
/// every file under `base`, at any depth, whose name matches `files`.
pub open spec fn search_pattern_spec(base: Seq<char>, files: Seq<char>) -> Seq<char> {
    base + "/**/"@ + files
}

/// Builds `<base>/**/<files>`.
pub fn search_pattern(base: &str, files: &str) -> (r: String)
    ensures
        r@ == search_pattern_spec(base@, files@),
{
    let mut r = base.to_owned();
    r.append("/**/");
    r.append(files);
    r
}

} // verus!

verus! {

/// Whether the `glob` crate accepts a text as a glob expression.
pub uninterp spec fn glob_accepts(p: Seq<char>) -> bool;

/// Relies on glob::Pattern::new: whether it refuses the text depends on the
/// text alone.
#[verifier::external_body]
fn glob_syntax_ok(p: &str) -> (r: bool)
    ensures
        r == glob_accepts(p@),
{
    glob::Pattern::new(p).is_ok()
}

/// Builds the search glob and checks its syntax before any file is touched:
/// `Err(Glob)` exactly when the glob expression is malformed.
pub fn prepare_search(base: &str, files: &str) -> (r: Result<String, RenameError>)
    ensures
        r is Ok <==> glob_accepts(search_pattern_spec(base@, files@)),
        r matches Ok(s) ==> s@ == search_pattern_spec(base@, files@),
        r matches Err(e) ==> e == RenameError::Glob,
{
    let p = search_pattern(base, files);
    if glob_syntax_ok(p.as_str()) {
        Ok(p)
    } else {
        Err(RenameError::Glob)
    }
}

} // verus!

use vstd::prelude::*;
use crate::error::RenameError;

verus! {

#[verifier::external_type_specification]
#[verifier::external_body]
pub struct ExRegex(regex::Regex);

#[verifier::external_type_specification]
#[verifier::external_body]
pub struct ExRegexError(regex::Error);

/// Whether the `regex` crate compiles a text as a regular expression.
pub uninterp spec fn regex_accepts(p: Seq<char>) -> bool;

/// Whether the regular expression `p` matches somewhere in `t`.
pub uninterp spec fn regex_finds(p: Seq<char>, t: Seq<char>) -> bool;

/// `t` with every non-overlapping match of `p` replaced by the template
/// `rep`, whose `$name` references are expanded from the match's groups.
pub uninterp spec fn regex_replace_all(p: Seq<char>, t: Seq<char>, rep: Seq<char>) -> Seq<char>;

/// A compiled find-pattern together with the text it was compiled from.
pub struct FindPattern {
    source: String,
    regex: regex::Regex,
}

impl FindPattern {
    /// The text this pattern was compiled from.
    pub closed spec fn source_spec(&self) -> Seq<char> {
        self.source@
    }
}

/// Relies on regex::Regex::new: whether it compiles depends on the pattern
/// text alone; the compiled value is kept beside that text.
#[verifier::external_body]
fn compile(p: &str) -> (r: Result<FindPattern, regex::Error>)
    ensures
        r is Ok <==> regex_accepts(p@),
        r matches Ok(f) ==> f.source_spec() == p@,
{
    let regex = regex::Regex::new(p)?;
    Ok(FindPattern { source: p.to_string(), regex })
}

/// Relies on regex::Regex::is_match: true exactly when the pattern matches
/// somewhere in the text.
#[verifier::external_body]
fn finds(f: &FindPattern, t: &str) -> (r: bool)
    ensures
        r == regex_finds(f.source_spec(), t@),
{
    f.regex.is_match(t)
}

/// Relies on regex::Regex::replace_all: all non-overlapping matches are
/// replaced, and the text comes back unchanged where nothing matches.
#[verifier::external_body]
fn replace_all(f: &FindPattern, t: &str, rep: &str) -> (r: String)
    ensures
        r@ == regex_replace_all(f.source_spec(), t@, rep@),
        !regex_finds(f.source_spec(), t@) ==> r@ == t@,
{
    f.regex.replace_all(t, rep).into_owned()
}

/// What renaming does to a file name that is valid text: the new name, or
/// why the file keeps its name.
pub open spec fn rename_spec(name: Seq<char>, find: Seq<char>, rep: Seq<char>) -> Result<
    Seq<char>,
    RenameError,
> {
    if !regex_accepts(find) {
        Err(RenameError::Regex)
    } else if !regex_finds(find, name) {
        Err(RenameError::PatternFindAbsent)
    } else {
        Ok(regex_replace_all(find, name, rep))
    }
}

/// Compiles `find` and applies it to `name`: the name with every match
/// replaced by `rep`, `Err(PatternFindAbsent)` where nothing matches, and
/// `Err(Regex)` where `find` does not compile.
pub fn rename_text(name: &str, find: &str, rep: &str) -> (r: Result<String, RenameError>)
    ensures
        r matches Ok(s) ==> rename_spec(name@, find@, rep@) == Ok::<Seq<char>, RenameError>(s@),
        r matches Err(e) ==> rename_spec(name@, find@, rep@) == Err::<Seq<char>, RenameError>(e),
{
    let f = match compile(find) {
        Ok(f) => f,
        Err(_) => {
            return Err(RenameError::Regex);
        },
    };
    if !finds(&f, name) {
        return Err(RenameError::PatternFindAbsent);
    }
    Ok(replace_all(&f, name, rep))
}

} // verus!

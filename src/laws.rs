use vstd::prelude::*;
use crate::error::RenameError;
use crate::finder::{regex_accepts, regex_finds, regex_replace_all, rename_spec};
use crate::plan::{entry_spec, ActionView, Entry, Leaf};

verus! {

/// A file whose name the find-pattern does not match is passed over: the walk
/// goes on without moving it and without printing anything.
pub proof fn unmatched_name_is_left_alone(leaf: Leaf, find: Seq<char>, rep: Seq<char>)
    requires
        leaf is Text,
        regex_accepts(find),
        !regex_finds(find, leaf->Text_0@),
    ensures
        entry_spec(Entry::Found(leaf), find, rep) == ActionView::Continue,
{
}

/// A file whose name the find-pattern matches is moved, within its directory,
/// to the name with every match replaced by the template.
pub proof fn matched_name_is_replaced(leaf: Leaf, find: Seq<char>, rep: Seq<char>)
    requires
        leaf is Text,
        regex_accepts(find),
        regex_finds(find, leaf->Text_0@),
    ensures
        entry_spec(Entry::Found(leaf), find, rep) == ActionView::Rename(
            regex_replace_all(find, leaf->Text_0@, rep),
        ),
{
}

/// A second run over a renamed file treats the new name like any other: it
/// is renamed again exactly when the find-pattern matches the new name, and
/// is left alone otherwise.
pub proof fn second_run_rematches_only_on_match(
    name: Seq<char>,
    renamed: Seq<char>,
    find: Seq<char>,
    rep: Seq<char>,
)
    requires
        rename_spec(name, find, rep) == Ok::<Seq<char>, RenameError>(renamed),
    ensures
        regex_finds(find, renamed) ==> rename_spec(renamed, find, rep) == Ok::<
            Seq<char>,
            RenameError,
        >(regex_replace_all(find, renamed, rep)),
        !regex_finds(find, renamed) ==> rename_spec(renamed, find, rep) == Err::<
            Seq<char>,
            RenameError,
        >(RenameError::PatternFindAbsent),
{
}

} // verus!

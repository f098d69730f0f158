use regex_rename::{
    after_move, entry_action, next_action, plan_rename, prepare_search, rename_text,
    search_pattern, Action, Entry, Leaf, RenameError,
};

fn text(s: &str) -> Leaf {
    Leaf::Text(s.to_string())
}

#[test]
fn year_is_replaced_in_report_name() {
    let r = plan_rename(&text("report-2021.txt"), r"\d{4}", "YEAR");
    assert_eq!(r, Ok("report-YEAR.txt".to_string()));
    let a = entry_action(&Entry::Found(text("report-2021.txt")), r"\d{4}", "YEAR");
    assert_eq!(a, Action::Rename("report-YEAR.txt".to_string()));
}

#[test]
fn name_without_digits_is_skipped() {
    let r = plan_rename(&text("draft.md"), r"\d{4}", "YEAR");
    assert_eq!(r, Err(RenameError::PatternFindAbsent));
    let a = entry_action(&Entry::Found(text("draft.md")), r"\d{4}", "YEAR");
    assert_eq!(a, Action::Continue);
}

#[test]
fn capture_group_is_expanded() {
    let r = plan_rename(&text("trace.log"), r"(\w+)\.log", "$1.bak");
    assert_eq!(r, Ok("trace.bak".to_string()));
}

#[test]
fn unbalanced_bracket_glob_is_refused() {
    assert_eq!(prepare_search("base", "[abc"), Err(RenameError::Glob));
}

#[test]
fn valid_glob_gives_recursive_search() {
    assert_eq!(prepare_search("base", "*.txt"), Ok("base/**/*.txt".to_string()));
    assert_eq!(search_pattern("/tmp/x", "a?.md"), "/tmp/x/**/a?.md".to_string());
}

#[test]
fn every_match_is_replaced() {
    let r = rename_text("a1b22c333", r"\d+", "#");
    assert_eq!(r, Ok("a#b#c#".to_string()));
}

#[test]
fn nested_and_direct_files_are_planned_alike() {
    // The plan reads only the last component, wherever the file sits.
    let nested = entry_action(&Entry::Found(text("log-1999.txt")), r"\d{4}", "Y");
    let direct = entry_action(&Entry::Found(text("log-1999.txt")), r"\d{4}", "Y");
    assert_eq!(nested, direct);
    assert_eq!(nested, Action::Rename("log-Y.txt".to_string()));
}

#[test]
fn second_run_leaves_renamed_file_alone() {
    let first = plan_rename(&text("report-2021.txt"), r"\d{4}", "YEAR").unwrap();
    assert_eq!(plan_rename(&Leaf::Text(first), r"\d{4}", "YEAR"), Err(RenameError::PatternFindAbsent));
}

#[test]
fn second_run_renames_again_when_new_name_matches() {
    let first = plan_rename(&text("a.txt"), r"a", "aa").unwrap();
    assert_eq!(first, "aa.txt");
    assert_eq!(plan_rename(&Leaf::Text(first), r"a", "aa"), Ok("aaaa.txt".to_string()));
}

#[test]
fn invalid_find_pattern_stops() {
    assert_eq!(plan_rename(&text("x.txt"), "(unclosed", "y"), Err(RenameError::Regex));
    let a = entry_action(&Entry::Found(text("x.txt")), "(unclosed", "y");
    assert_eq!(a, Action::Stop(RenameError::Regex));
}

#[test]
fn missing_file_name_stops() {
    assert_eq!(plan_rename(&Leaf::Missing, "(unclosed", "y"), Err(RenameError::SourceNotFile));
    let a = entry_action(&Entry::Found(Leaf::Missing), "x", "y");
    assert_eq!(a, Action::Stop(RenameError::SourceNotFile));
}

#[test]
fn non_text_file_name_stops() {
    assert_eq!(plan_rename(&Leaf::NotText, "x", "y"), Err(RenameError::UnsupportedFilename));
}

#[test]
fn unreadable_entry_is_passed_over() {
    assert_eq!(entry_action(&Entry::Unreadable, "(unclosed", "y"), Action::Continue);
}

#[test]
fn failed_move_stops_with_io_error() {
    assert_eq!(after_move(false), Action::Stop(RenameError::Io));
    assert_eq!(after_move(true), Action::Continue);
}

#[test]
fn plan_is_turned_into_steps() {
    assert_eq!(next_action(Ok("n".to_string())), Action::Rename("n".to_string()));
    assert_eq!(next_action(Err(RenameError::PatternFindAbsent)), Action::Continue);
    assert_eq!(next_action(Err(RenameError::Regex)), Action::Stop(RenameError::Regex));
}

#[test]
fn empty_name_is_not_matched_by_digits() {
    assert_eq!(rename_text("", r"\d", "x"), Err(RenameError::PatternFindAbsent));
}

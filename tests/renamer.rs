use media_renamer::controller::{join, RenameError, Renamer};
use media_renamer::fields::{default_order, Field, FieldSet, Separator};
use media_renamer::listing::{regular_files, sorted_names, DirEntry};
use media_renamer::text::{extract_extension, is_space, str_lt, tokenize};

fn entry(name: &str, is_file: bool) -> DirEntry {
    DirEntry { name: name.to_string(), is_file }
}

fn strings(v: &[&str]) -> Vec<String> {
    v.iter().map(|s| s.to_string()).collect()
}

#[test]
fn tokenize_draft_keeps_order_without_empty_tokens() {
    assert_eq!(tokenize("draft(1).txt"), strings(&["draft", "1", "txt"]));
}

#[test]
fn tokenize_without_delimiters_gives_trimmed_input() {
    assert_eq!(tokenize("  plain name  "), strings(&["plain name"]));
    assert_eq!(tokenize("word"), strings(&["word"]));
}

#[test]
fn tokenize_blank_input_gives_no_tokens() {
    assert!(tokenize("").is_empty());
    assert!(tokenize("   \t ").is_empty());
}

#[test]
fn tokenize_skips_runs_of_delimiters_and_trims() {
    assert_eq!(
        tokenize("[Group] Show - 01 {x}(y),z..mkv"),
        strings(&["Group", "Show", "01", "x", "y", "z", "mkv"])
    );
    assert!(tokenize(".,-[]{}()").is_empty());
    assert_eq!(tokenize("\u{3000}a\u{a0}.b"), strings(&["a", "b"]));
}

#[test]
fn extension_after_last_dot() {
    assert_eq!(extract_extension("episode.S01E02.mkv"), ".mkv");
    assert_eq!(extract_extension("noext"), "");
    assert_eq!(extract_extension("archive.tar.gz"), ".gz");
    assert_eq!(extract_extension("trailing."), ".");
    assert_eq!(extract_extension(".hidden"), ".hidden");
    assert_eq!(extract_extension(""), "");
}

#[test]
fn compose_skips_empty_fields_without_separators() {
    let mut f = FieldSet::new();
    f.set(Field::Author, "Author".to_string());
    f.set(Field::Series, String::new());
    f.set(Field::Episode, "E01".to_string());
    f.set(Field::Title, "Title".to_string());
    f.set(Field::Extension, ".mkv".to_string());
    assert_eq!(f.compose(), "AuthorE01Title.mkv");
}

#[test]
fn compose_of_empty_fields_is_empty() {
    assert_eq!(FieldSet::new().compose(), "");
}

#[test]
fn quick_insert_appends_every_time() {
    let mut f = FieldSet::new();
    f.set(Field::Title, "A".to_string());
    f.quick_insert(Field::Title, Separator::Space);
    f.quick_insert(Field::Title, Separator::Space);
    f.quick_insert(Field::Title, Separator::Dash);
    f.quick_insert(Field::Title, Separator::Comma);
    assert_eq!(f.get(Field::Title), "A   - , ");
    assert_eq!(f.get(Field::Author), "");
}

#[test]
fn append_adds_text_to_one_field() {
    let mut f = FieldSet::new();
    f.append(Field::Series, "Show");
    f.append(Field::Series, " Two");
    assert_eq!(f.get(Field::Series), "Show Two");
    assert_eq!(f.compose(), "Show Two");
}

#[test]
fn scan_then_sort_orders_names() {
    let entries = vec![entry("b.txt", true), entry("a.txt", true), entry("sub", false), entry("c.txt", true)];
    let files = regular_files(&entries);
    assert_eq!(files, strings(&["b.txt", "a.txt", "c.txt"]));
    assert_eq!(sorted_names(&files), strings(&["a.txt", "b.txt", "c.txt"]));
}

#[test]
fn sort_is_case_sensitive_and_keeps_duplicates() {
    let names = strings(&["b", "B", "a", "ab", "a", "é", "z"]);
    assert_eq!(sorted_names(&names), strings(&["B", "a", "a", "ab", "b", "z", "é"]));
    assert!(sorted_names(&Vec::new()).is_empty());
}

#[test]
fn string_order_and_whitespace() {
    assert!(str_lt("a", "b"));
    assert!(str_lt("a", "ab"));
    assert!(!str_lt("ab", "a"));
    assert!(!str_lt("same", "same"));
    assert!(is_space(' ') && is_space('\n') && is_space('\u{2003}'));
    assert!(!is_space('x') && !is_space('-'));
}

#[test]
fn join_uses_one_slash() {
    assert_eq!(join(&"D".to_string(), &"old.txt".to_string()), "D/old.txt");
}

#[test]
fn selecting_a_directory_resets_destination_and_fields() {
    let mut r = Renamer::new();
    r.select_destination_directory("/elsewhere".to_string());
    r.edit_field(Field::Title, "T".to_string());
    r.select_file("x.avi".to_string());
    r.select_source_directory("/media".to_string(), &vec![entry("x.avi", true), entry("dir", false)]);
    assert_eq!(r.source_dir.as_deref(), Some("/media"));
    assert_eq!(r.dest_dir.as_deref(), Some("/media"));
    assert!(r.selected_file.is_none());
    assert_eq!(r.composed_name(), "");
    assert_eq!(r.files, strings(&["x.avi"]));
    r.select_destination_directory("/out".to_string());
    assert_eq!(r.dest_dir.as_deref(), Some("/out"));
    assert_eq!(r.source_dir.as_deref(), Some("/media"));
}

#[test]
fn deselecting_clears_directories_and_files() {
    let mut r = Renamer::new();
    r.select_source_directory("/media".to_string(), &vec![entry("x.avi", true)]);
    r.deselect_source_directory();
    assert!(r.source_dir.is_none());
    assert!(r.dest_dir.is_none());
    assert!(r.files.is_empty());
}

#[test]
fn selecting_a_file_overwrites_only_the_extension() {
    let mut r = Renamer::new();
    r.edit_field(Field::Author, "Me".to_string());
    r.edit_field(Field::Extension, ".old".to_string());
    r.select_file("clip.mp4".to_string());
    assert_eq!(r.fields.get(Field::Extension), ".mp4");
    assert_eq!(r.fields.get(Field::Author), "Me");
    r.select_file("noext".to_string());
    assert_eq!(r.fields.get(Field::Extension), "");
    assert_eq!(r.selected_file.as_deref(), Some("noext"));
}

#[test]
fn selected_tokens_follow_selection() {
    let mut r = Renamer::new();
    assert!(r.selected_tokens().is_empty());
    r.select_file("draft(1).txt".to_string());
    assert_eq!(r.selected_tokens(), strings(&["draft", "1", "txt"]));
}

#[test]
fn paste_appends_clipboard_text() {
    let mut r = Renamer::new();
    r.edit_field(Field::Episode, "E".to_string());
    r.paste_into_field(Field::Episode, "01");
    r.quick_insert(Field::Episode, Separator::Dash);
    assert_eq!(r.fields.get(Field::Episode), "E01 - ");
}

#[test]
fn rename_success_clears_selection_and_rescans() {
    let mut r = Renamer::new();
    r.select_source_directory("D".to_string(), &vec![entry("old.txt", true)]);
    r.select_file("old.txt".to_string());
    r.edit_field(Field::Title, "new".to_string());
    assert_eq!(r.composed_name(), "new.txt");
    let plan = r.rename_plan().ok().unwrap();
    assert_eq!(plan.source, "D/old.txt");
    assert_eq!(plan.destination, "D/new.txt");
    let rescan = r.finish_rename(Ok(()));
    assert_eq!(rescan.as_deref(), Some("D"));
    r.refresh_files(&vec![entry("new.txt", true)]);
    let status = r.status.clone().unwrap();
    assert!(status.success);
    assert_eq!(status.message, "Rename Successful!");
    assert_eq!(r.files, strings(&["new.txt"]));
    assert!(r.selected_file.is_none());
    for f in [Field::Author, Field::Series, Field::Episode, Field::Title, Field::Extension] {
        assert_eq!(r.fields.get(f), "");
    }
    assert_eq!(r.source_dir.as_deref(), Some("D"));
    assert_eq!(r.dest_dir.as_deref(), Some("D"));
}

#[test]
fn rename_without_source_directory_is_refused() {
    let mut r = Renamer::new();
    r.select_file("a.txt".to_string());
    r.select_destination_directory("/out".to_string());
    let err = r.rename_plan().err().unwrap();
    assert!(matches!(err, RenameError::InvalidPaths));
    assert_eq!(err.message(), "Invalid paths or file names provided.");
    assert_eq!(r.selected_file.as_deref(), Some("a.txt"));
    assert!(r.status.is_none());
    assert!(r.source_dir.is_none());
    assert_eq!(r.fields.get(Field::Extension), ".txt");
}

#[test]
fn rename_without_selected_file_is_refused() {
    let mut r = Renamer::new();
    r.select_source_directory("D".to_string(), &vec![]);
    assert!(matches!(r.rename_plan(), Err(RenameError::InvalidPaths)));
    r.finish_rename(Err(RenameError::InvalidPaths));
    let status = r.status.clone().unwrap();
    assert!(!status.success);
    assert_eq!(status.message, "Invalid paths or file names provided.");
}

#[test]
fn rename_failure_keeps_selection_and_fields() {
    let mut r = Renamer::new();
    r.select_source_directory("D".to_string(), &vec![entry("old.txt", true)]);
    r.select_file("old.txt".to_string());
    r.edit_field(Field::Author, "A".to_string());
    r.select_destination_directory("/missing".to_string());
    let plan = r.rename_plan().ok().unwrap();
    assert_eq!(plan.destination, "/missing/A.txt");
    let reason = "No such file or directory (os error 2)".to_string();
    let rescan = r.finish_rename(Err(RenameError::MoveFailed(reason)));
    assert!(rescan.is_none());
    let status = r.status.clone().unwrap();
    assert!(!status.success);
    assert_eq!(status.message, "Failed to move the file: No such file or directory (os error 2)");
    assert_eq!(r.selected_file.as_deref(), Some("old.txt"));
    assert_eq!(r.fields.get(Field::Author), "A");
    assert_eq!(r.fields.get(Field::Extension), ".txt");
    assert_eq!(r.files, strings(&["old.txt"]));
}

#[test]
fn open_target_adds_a_slash_only_where_needed() {
    let mut r = Renamer::new();
    assert_eq!(r.open_target(), "");
    r.select_source_directory("/m/".to_string(), &vec![]);
    r.select_file("a.mkv".to_string());
    assert_eq!(r.open_target(), "/m/a.mkv");
    r.select_source_directory("/m".to_string(), &vec![]);
    assert_eq!(r.open_target(), "/m/");
    r.select_file("b.mkv".to_string());
    assert_eq!(r.open_target(), "/m/b.mkv");
}

#[test]
fn compose_in_follows_the_given_order() {
    let mut f = FieldSet::new();
    f.set(Field::Author, "Author".to_string());
    f.set(Field::Episode, "E01".to_string());
    f.set(Field::Title, "Title".to_string());
    f.set(Field::Extension, ".mkv".to_string());
    assert_eq!(f.compose_in(&default_order()), "AuthorE01Title.mkv");
    assert_eq!(f.compose_in(&vec![Field::Title, Field::Author, Field::Extension]), "TitleAuthor.mkv");
    assert_eq!(f.compose_in(&vec![Field::Title, Field::Title]), "TitleTitle");
    assert_eq!(f.compose_in(&Vec::new()), "");
}

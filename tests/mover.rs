use autofile::mover::{decimal_string, candidate_name, FileMover, MoveError, MAX_ATTEMPTS};

fn names(v: &[&str]) -> Vec<String> {
    v.iter().map(|s| s.to_string()).collect()
}

#[test]
fn free_name_is_kept() {
    let taken = names(&["b.txt"]);
    assert_eq!(FileMover::resolve_conflict("/dest/a.txt", &taken), Ok("/dest/a.txt".to_string()));
}

#[test]
fn first_conflict_gets_suffix_one() {
    let taken = names(&["a.txt"]);
    assert_eq!(FileMover::resolve_conflict("/dest/a.txt", &taken), Ok("/dest/a_1.txt".to_string()));
}

#[test]
fn second_conflict_gets_suffix_two() {
    let taken = names(&["a.txt", "a_1.txt"]);
    assert_eq!(FileMover::resolve_conflict("/dest/a.txt", &taken), Ok("/dest/a_2.txt".to_string()));
}

#[test]
fn conflict_without_extension() {
    let taken = names(&["README", "README_1"]);
    assert_eq!(FileMover::resolve_conflict("/d/README", &taken), Ok("/d/README_2".to_string()));
}

#[test]
fn conflict_keeps_only_final_extension() {
    let taken = names(&["x.tar.gz"]);
    assert_eq!(FileMover::resolve_conflict("/d/x.tar.gz", &taken), Ok("/d/x.tar_1.gz".to_string()));
}

#[test]
fn exhausted_suffixes_are_unresolved() {
    let mut taken = names(&["a.txt"]);
    for i in 1..MAX_ATTEMPTS {
        taken.push(format!("a_{}.txt", i));
    }
    assert_eq!(FileMover::resolve_conflict("/d/a.txt", &taken), Err(MoveError::ConflictUnresolved));
    taken.pop();
    assert_eq!(FileMover::resolve_conflict("/d/a.txt", &taken), Ok("/d/a_9999.txt".to_string()));
}

#[test]
fn root_has_no_stem() {
    let taken: Vec<String> = Vec::new();
    assert_eq!(FileMover::resolve_conflict("/", &taken), Err(MoveError::NoFileStem));
}

#[test]
fn missing_source_is_not_found() {
    let taken = names(&["a.txt"]);
    assert_eq!(FileMover::plan_move("/src/a.txt", "/dest", false, &taken), Err(MoveError::NotFound));
}

#[test]
fn source_without_name_is_refused() {
    let taken: Vec<String> = Vec::new();
    assert_eq!(FileMover::plan_move("/", "/dest", true, &taken), Err(MoveError::NoFileName));
}

#[test]
fn plan_move_into_directory() {
    let empty: Vec<String> = Vec::new();
    assert_eq!(FileMover::plan_move("/src/test.txt", "/dest", true, &empty), Ok("/dest/test.txt".to_string()));
    let taken = names(&["test.txt"]);
    assert_eq!(
        FileMover::plan_move("/src/test.txt", "/dest", true, &taken),
        Ok("/dest/test_1.txt".to_string())
    );
}

#[test]
fn pick_free_name_counts_up() {
    let taken = names(&["a_1.txt", "a_2.txt"]);
    assert_eq!(FileMover::pick_free_name("a", "txt", &taken), Ok("a_3.txt".to_string()));
    assert_eq!(FileMover::pick_free_name("a", "", &taken), Ok("a_1".to_string()));
}

#[test]
fn numerals_and_candidates() {
    assert_eq!(decimal_string(0), "0");
    assert_eq!(decimal_string(7), "7");
    assert_eq!(decimal_string(10), "10");
    assert_eq!(decimal_string(9999), "9999");
    assert_eq!(decimal_string(1234567890), "1234567890");
    assert_eq!(candidate_name("photo", "jpg", 12), "photo_12.jpg");
    assert_eq!(candidate_name("notes", "", 3), "notes_3");
}

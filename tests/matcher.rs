use autofile::matcher::{Descent, SubfolderMatcher, SIMILARITY_THRESHOLD};
use autofile::utils::str_lt;

fn names(v: &[&str]) -> Vec<String> {
    v.iter().map(|s| s.to_string()).collect()
}

#[test]
fn empty_stem_or_missing_destination_ends_at_start() {
    assert_eq!(SubfolderMatcher::begin("/dl/.hidden", true), Some(".hidden".to_string()));
    assert_eq!(SubfolderMatcher::begin("", true), None);
    assert_eq!(SubfolderMatcher::begin("/dl/beach_sunset.jpg", false), None);
    assert_eq!(SubfolderMatcher::begin("/dl/beach_sunset.jpg", true), Some("beach_sunset".to_string()));
}

#[test]
fn candidates_skip_hidden_and_excluded() {
    let m = SubfolderMatcher::new(names(&["Old Files", "Archive"]));
    let entries = names(&["Vacation", ".cache", "Archive", "Screenshots", "Old Files"]);
    assert_eq!(m.candidates(&entries), names(&["Vacation", "Screenshots"]));
}

#[test]
fn vacation_chosen_when_only_it_reaches_threshold() {
    let cands = names(&["Vacation", "Screenshots"]);
    let scores = vec![820_000, 310_000];
    assert_eq!(
        SubfolderMatcher::next_directory("/home/u/Pictures", &cands, &scores),
        Some("/home/u/Pictures/Vacation".to_string())
    );
    match SubfolderMatcher::step("/home/u/Pictures", &cands, &scores) {
        Descent::Explore(d) => assert_eq!(d, "/home/u/Pictures/Vacation"),
        Descent::Settled(d) => panic!("settled at {}", d),
    }
}

#[test]
fn stays_at_pictures_when_none_reaches_threshold() {
    let cands = names(&["Vacation", "Screenshots"]);
    let scores = vec![650_000, 310_000];
    assert_eq!(SubfolderMatcher::next_directory("/home/u/Pictures", &cands, &scores), None);
    match SubfolderMatcher::step("/home/u/Pictures", &cands, &scores) {
        Descent::Settled(d) => assert_eq!(d, "/home/u/Pictures"),
        Descent::Explore(d) => panic!("explored {}", d),
    }
}

#[test]
fn threshold_is_inclusive() {
    let cands = names(&["A"]);
    assert_eq!(
        SubfolderMatcher::next_directory("/p", &cands, &vec![SIMILARITY_THRESHOLD]),
        Some("/p/A".to_string())
    );
    assert_eq!(SubfolderMatcher::next_directory("/p", &cands, &vec![SIMILARITY_THRESHOLD - 1]), None);
}

#[test]
fn excluded_best_folder_is_never_entered() {
    let m = SubfolderMatcher::new(names(&["Vacation"]));
    let entries = names(&["Vacation", "Screenshots"]);
    let cands = m.candidates(&entries);
    assert_eq!(cands, names(&["Screenshots"]));
    let scores = vec![300_000];
    match SubfolderMatcher::step("/home/u/Pictures", &cands, &scores) {
        Descent::Settled(d) => assert_eq!(d, "/home/u/Pictures"),
        Descent::Explore(d) => panic!("explored {}", d),
    }
}

#[test]
fn no_candidates_settles() {
    let empty: Vec<String> = Vec::new();
    match SubfolderMatcher::step("/p", &empty, &Vec::new()) {
        Descent::Settled(d) => assert_eq!(d, "/p"),
        Descent::Explore(d) => panic!("explored {}", d),
    }
}

#[test]
fn ties_go_to_the_lexicographically_smallest_name() {
    let four = names(&["d", "c", "b", "a"]);
    assert_eq!(SubfolderMatcher::best_candidate(&four, &vec![5, 9, 9, 1]), Some(2));
    assert_eq!(SubfolderMatcher::best_candidate(&names(&["x"]), &vec![-3]), Some(0));
    assert_eq!(SubfolderMatcher::best_candidate(&Vec::new(), &Vec::new()), None);
    let same = names(&["a", "a"]);
    assert_eq!(SubfolderMatcher::best_candidate(&same, &vec![4, 4]), Some(0));
    let cands = names(&["Beta", "Alpha", "alpha"]);
    assert_eq!(
        SubfolderMatcher::next_directory("/p", &cands, &vec![900_000, 900_000, 900_000]),
        Some("/p/Alpha".to_string())
    );
    let prefix = names(&["Photos2024", "Photos"]);
    assert_eq!(
        SubfolderMatcher::next_directory("/p", &prefix, &vec![800_000, 800_000]),
        Some("/p/Photos".to_string())
    );
}

#[test]
fn text_order() {
    assert!(str_lt("Alpha", "Beta"));
    assert!(str_lt("Photos", "Photos2024"));
    assert!(!str_lt("b", "a"));
    assert!(!str_lt("same", "same"));
    assert!(str_lt("", "x"));
    assert!(str_lt("Z", "a"));
}

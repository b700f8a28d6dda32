use autofile::categorizer::{CategoryRule, Categorizer};
use autofile::config::{Config, MatcherConfig};
use autofile::detector::FileCategory;
use autofile::organizer::{Disposition, FileOrganizer, SkipReason};
use autofile::matcher::SubfolderMatcher;
use autofile::preprocessor::{HeicConverter, Preprocessor, PreprocessorPipeline};
use autofile::utils::is_hidden_file;
use autofile::watcher::FileWatcher;

fn rule(name: &str, dest: &str) -> CategoryRule {
    CategoryRule { name: name.to_string(), destination: dest.to_string() }
}

#[test]
fn default_rules_under_home() {
    let c = Categorizer::from_home("/home/u");
    assert_eq!(c.get_destination(&FileCategory::Document).unwrap(), "/home/u/Documents");
    assert_eq!(c.get_destination(&FileCategory::Image).unwrap(), "/home/u/Pictures");
    assert_eq!(c.get_destination(&FileCategory::Video).unwrap(), "/home/u/Videos");
    assert_eq!(c.get_destination(&FileCategory::Audio).unwrap(), "/home/u/Music");
    assert_eq!(c.get_destination(&FileCategory::Archive).unwrap(), "/home/u/Documents/Archives");
    assert_eq!(c.get_destination(&FileCategory::Code).unwrap(), "/home/u/Projects");
    assert!(c.get_destination(&FileCategory::Unknown).is_none());
    assert!(c.get_rule(&FileCategory::Unknown).is_none());
    assert_eq!(c.get_rule(&FileCategory::Image).unwrap().name, "Images");
    assert_eq!(c.destinations().len(), 6);
}

#[test]
fn custom_rules_last_entry_wins_and_unknown_is_ignored() {
    let c = Categorizer::with_custom_rules(vec![
        (FileCategory::Image, rule("Pics", "/a")),
        (FileCategory::Unknown, rule("Misc", "/m")),
        (FileCategory::Image, rule("Photos", "/b")),
        (FileCategory::Code, rule("Src", "/c")),
    ]);
    assert_eq!(c.get_rule(&FileCategory::Image).unwrap().name, "Photos");
    assert_eq!(c.get_destination(&FileCategory::Image).unwrap(), "/b");
    assert!(c.get_rule(&FileCategory::Unknown).is_none());
    assert!(c.get_rule(&FileCategory::Document).is_none());
    assert_eq!(c.destinations(), vec!["/b".to_string(), "/c".to_string()]);
}

fn organizer() -> FileOrganizer {
    FileOrganizer::new(
        Categorizer::with_custom_rules(vec![(FileCategory::Image, rule("Images", "/home/u/Pictures"))]),
        SubfolderMatcher::new(Vec::new()),
        PreprocessorPipeline::new(),
    )
}

#[test]
fn unrecognized_file_is_left_in_place() {
    let o = organizer();
    let bytes = b"nothing to see".to_vec();
    assert!(matches!(o.route("/dl/data.qqq", Some(&bytes[..])), Disposition::Skip(SkipReason::UnknownType)));
    assert!(matches!(o.route("/dl/data.qqq", None), Disposition::Skip(SkipReason::UnknownType)));
}

#[test]
fn category_without_rule_is_skipped() {
    let o = organizer();
    assert!(matches!(o.route("/dl/song.mp3", None), Disposition::Skip(SkipReason::NoRule)));
}

#[test]
fn image_goes_to_its_destination() {
    let o = organizer();
    match o.route("/dl/beach_sunset.JPG", None) {
        Disposition::Deliver(c, d) => {
            assert_eq!(c, FileCategory::Image);
            assert_eq!(d, "/home/u/Pictures");
        }
        Disposition::Skip(r) => panic!("skipped: {:?}", r),
    }
}

#[test]
fn vanished_or_non_file_paths_are_skipped() {
    assert_eq!(FileOrganizer::accept_path(false, false), Some(SkipReason::Missing));
    assert_eq!(FileOrganizer::accept_path(true, false), Some(SkipReason::NotAFile));
    assert_eq!(FileOrganizer::accept_path(true, true), None);
}

#[test]
fn heic_conversion_planning() {
    let h = HeicConverter::new();
    assert!(h.should_process("/dl/IMG_1.HEIC", true));
    assert!(h.should_process("/dl/IMG_1.heif", true));
    assert!(!h.should_process("/dl/IMG_1.heic", false));
    assert!(!h.should_process("/dl/IMG_1.jpg", true));
    assert_eq!(h.output_path("/dl/IMG_1.HEIC"), "/dl/IMG_1.png");
    assert_eq!(Preprocessor::HeicConversion(h).name(), "HEIC to PNG Converter");
    assert_eq!(h.output_path("/dl/IMG_1"), "/dl/IMG_1.png");
    let p = PreprocessorPipeline::new();
    let steps = p.process("/dl/IMG_1.heic", true);
    assert_eq!(steps.len(), 1);
    assert_eq!(steps[0].source, "/dl/IMG_1.heic");
    assert_eq!(steps[0].output, "/dl/IMG_1.png");
    assert!(p.process("/dl/IMG_1.heic", false).is_empty());
    assert!(p.process("/dl/notes.txt", true).is_empty());
}

#[test]
fn watcher_forwards_visible_files_only() {
    assert!(FileWatcher::should_forward(true, true, "/dl/report.pdf"));
    assert!(!FileWatcher::should_forward(true, true, "/dl/.report.pdf.part"));
    assert!(!FileWatcher::should_forward(false, true, "/dl/report.pdf"));
    assert!(!FileWatcher::should_forward(true, false, "/dl/folder"));
    assert_eq!(FileWatcher::new("/dl".to_string()).watch_path, "/dl");
    assert_eq!(FileWatcher::default_watch_path("/home/u"), "/home/u/Downloads");
    assert!(is_hidden_file("/x/.env"));
    assert!(!is_hidden_file("/x/env"));
    assert!(!is_hidden_file("/"));
}

#[test]
fn config_defaults_and_path() {
    let c = Config::default();
    assert!(c.matcher.excluded_folders.is_empty());
    assert!(MatcherConfig::default().excluded_folders.is_empty());
    assert_eq!(Config::config_path_in("/home/u/.config"), "/home/u/.config/autofile/config.toml");
}

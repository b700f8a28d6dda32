use autofile::detector::{FileCategory, FileDetector, SignatureKind};

#[test]
fn test_extension_detection() {
    assert_eq!(FileDetector::detect_by_extension("test.pdf"), FileCategory::Document);
    assert_eq!(FileDetector::detect_by_extension("image.png"), FileCategory::Image);
    assert_eq!(FileDetector::detect_by_extension("script.rs"), FileCategory::Code);
}

const TABLE: &[(&str, FileCategory)] = &[
    ("pdf doc docx txt rtf odt xls xlsx ppt pptx csv", FileCategory::Document),
    ("jpg jpeg png gif bmp svg webp ico tiff tif", FileCategory::Image),
    ("mp4 avi mkv mov wmv flv webm m4v mpg mpeg", FileCategory::Video),
    ("mp3 wav flac aac ogg m4a wma opus", FileCategory::Audio),
    ("zip rar 7z tar gz bz2 xz tgz", FileCategory::Archive),
    (
        "rs py js ts go java c cpp h hpp cs rb php swift kt scala r m sh bash zsh fish html css scss sass json xml yaml yml toml sql md rst tex",
        FileCategory::Code,
    ),
];

#[test]
fn every_mapped_extension_with_unreadable_or_empty_content() {
    let empty: Vec<u8> = Vec::new();
    for (exts, cat) in TABLE {
        for e in exts.split(' ') {
            let path = format!("/tmp/file.{}", e);
            assert_eq!(FileDetector::detect_category(&path, None), *cat, "{}", path);
            assert_eq!(FileDetector::detect_category(&path, Some(&empty[..])), *cat, "{}", path);
            assert_eq!(FileDetector::category_for_extension(e), *cat);
        }
    }
}

#[test]
fn unmapped_extensions_are_unknown() {
    assert_eq!(FileDetector::detect_category("notes.xyz", None), FileCategory::Unknown);
    assert_eq!(FileDetector::detect_by_extension("Makefile"), FileCategory::Unknown);
    assert_eq!(FileDetector::detect_by_extension(".bashrc"), FileCategory::Unknown);
    assert_eq!(FileDetector::category_for_extension(""), FileCategory::Unknown);
    assert_eq!(FileDetector::category_for_extension("PDF"), FileCategory::Unknown);
}

#[test]
fn extensions_compare_case_insensitively() {
    assert_eq!(FileDetector::detect_by_extension("PHOTO.JPG"), FileCategory::Image);
    assert_eq!(FileDetector::detect_by_extension("Report.Pdf"), FileCategory::Document);
    assert_eq!(FileDetector::detect_by_extension("archive.tar.GZ"), FileCategory::Archive);
}

#[test]
fn png_signature_wins_over_extension() {
    let png: Vec<u8> = vec![0x89, 0x50, 0x4E, 0x47, 0x0D, 0x0A, 0x1A, 0x0A, 0, 0, 0, 0];
    assert_eq!(FileDetector::detect_category("weird.txt", Some(&png[..])), FileCategory::Image);
}

#[test]
fn zip_signature_counts_as_document() {
    let zip: Vec<u8> = vec![0x50, 0x4B, 0x03, 0x04, 0x14, 0, 0, 0, 0, 0, 0, 0];
    assert_eq!(FileDetector::detect_category("bundle.bin", Some(&zip[..])), FileCategory::Document);
}

#[test]
fn text_signature_falls_back_to_extension() {
    let html = b"<html><body>hi</body></html>".to_vec();
    assert_eq!(FileDetector::detect_category("page.rs", Some(&html[..])), FileCategory::Code);
    assert_eq!(FileDetector::detect_category("page.qqq", Some(&html[..])), FileCategory::Unknown);
}

#[test]
fn unrecognized_bytes_fall_back_to_extension() {
    let bytes = b"plain words only".to_vec();
    assert_eq!(FileDetector::detect_category("a.mp3", Some(&bytes[..])), FileCategory::Audio);
}

#[test]
fn signature_families() {
    assert_eq!(FileDetector::category_for_signature(SignatureKind::Image), Some(FileCategory::Image));
    assert_eq!(FileDetector::category_for_signature(SignatureKind::Video), Some(FileCategory::Video));
    assert_eq!(FileDetector::category_for_signature(SignatureKind::Audio), Some(FileCategory::Audio));
    assert_eq!(FileDetector::category_for_signature(SignatureKind::Archive), Some(FileCategory::Document));
    assert_eq!(FileDetector::category_for_signature(SignatureKind::Doc), Some(FileCategory::Document));
    assert_eq!(FileDetector::category_for_signature(SignatureKind::Font), Some(FileCategory::Document));
    assert_eq!(FileDetector::category_for_signature(SignatureKind::Text), None);
    assert_eq!(FileDetector::category_for_signature(SignatureKind::App), None);
    assert_eq!(
        FileDetector::classify_with_signature("x.mp4", Some(SignatureKind::Book)),
        FileCategory::Video
    );
    assert_eq!(
        FileDetector::classify_with_signature("x.mp4", Some(SignatureKind::Font)),
        FileCategory::Document
    );
    assert_eq!(FileDetector::classify_with_signature("x.mp4", None), FileCategory::Video);
}

//! Content classification: binary signatures first, then a case-insensitive
//! extension table.

use vstd::prelude::*;
use crate::utils::{extension, extension_of, lower_of, lowercase, str_eq};

verus! {

/// The closed set of content categories; every file falls in exactly one.
#[derive(Debug, Clone, Copy, PartialEq, Eq, Hash, Structural)]
pub enum FileCategory {
    Document,
    Image,
    Video,
    Audio,
    Archive,
    Code,
    Unknown,
}

/// The family of a recognised binary signature.
#[derive(Debug, Clone, Copy, PartialEq, Eq, Hash, Structural)]
pub enum SignatureKind {
    App,
    Archive,
    Audio,
    Book,
    Doc,
    Font,
    Image,
    Text,
    Video,
    Custom,
}

/// The signature family that `infer` recognises at the start of some bytes, if any.
pub uninterp spec fn signature_of(bytes: Seq<u8>) -> Option<SignatureKind>;

/// Relies on `infer::get` and `infer::Type::matcher_type`: the signature family of the bytes.
/// Content that starts with the OLE2 magic is handed by `infer` to the `cfb` parser, whose
/// behaviour on malformed input is relied on here as well: it is taken not to panic.
#[verifier::external_body]
fn sniff(bytes: &[u8]) -> (r: Option<SignatureKind>)
    ensures
        r == signature_of(bytes@),
{
    match infer::get(bytes) {
        None => None,
        Some(t) => Some(match t.matcher_type() {
            infer::MatcherType::App => SignatureKind::App,
            infer::MatcherType::Archive => SignatureKind::Archive,
            infer::MatcherType::Audio => SignatureKind::Audio,
            infer::MatcherType::Book => SignatureKind::Book,
            infer::MatcherType::Doc => SignatureKind::Doc,
            infer::MatcherType::Font => SignatureKind::Font,
            infer::MatcherType::Image => SignatureKind::Image,
            infer::MatcherType::Text => SignatureKind::Text,
            infer::MatcherType::Video => SignatureKind::Video,
            infer::MatcherType::Custom => SignatureKind::Custom,
        }),
    }
}

pub open spec fn is_document_ext(e: Seq<char>) -> bool {
    e == "pdf"@
        || e == "doc"@
        || e == "docx"@
        || e == "txt"@
        || e == "rtf"@
        || e == "odt"@
        || e == "xls"@
        || e == "xlsx"@
        || e == "ppt"@
        || e == "pptx"@
        || e == "csv"@
}

pub open spec fn is_image_ext(e: Seq<char>) -> bool {
    e == "jpg"@
        || e == "jpeg"@
        || e == "png"@
        || e == "gif"@
        || e == "bmp"@
        || e == "svg"@
        || e == "webp"@
        || e == "ico"@
        || e == "tiff"@
        || e == "tif"@
}

pub open spec fn is_video_ext(e: Seq<char>) -> bool {
    e == "mp4"@
        || e == "avi"@
        || e == "mkv"@
        || e == "mov"@
        || e == "wmv"@
        || e == "flv"@
        || e == "webm"@
        || e == "m4v"@
        || e == "mpg"@
        || e == "mpeg"@
}

pub open spec fn is_audio_ext(e: Seq<char>) -> bool {
    e == "mp3"@
        || e == "wav"@
        || e == "flac"@
        || e == "aac"@
        || e == "ogg"@
        || e == "m4a"@
        || e == "wma"@
        || e == "opus"@
}

pub open spec fn is_archive_ext(e: Seq<char>) -> bool {
    e == "zip"@
        || e == "rar"@
        || e == "7z"@
        || e == "tar"@
        || e == "gz"@
        || e == "bz2"@
        || e == "xz"@
        || e == "tgz"@
}

pub open spec fn is_code_ext(e: Seq<char>) -> bool {
    e == "rs"@
        || e == "py"@
        || e == "js"@
        || e == "ts"@
        || e == "go"@
        || e == "java"@
        || e == "c"@
        || e == "cpp"@
        || e == "h"@
        || e == "hpp"@
        || e == "cs"@
        || e == "rb"@
        || e == "php"@
        || e == "swift"@
        || e == "kt"@
        || e == "scala"@
        || e == "r"@
        || e == "m"@
        || e == "sh"@
        || e == "bash"@
        || e == "zsh"@
        || e == "fish"@
        || e == "html"@
        || e == "css"@
        || e == "scss"@
        || e == "sass"@
        || e == "json"@
        || e == "xml"@
        || e == "yaml"@
        || e == "yml"@
        || e == "toml"@
        || e == "sql"@
        || e == "md"@
        || e == "rst"@
        || e == "tex"@
}

/// The category that the extension table gives to an already lowercased extension.
pub open spec fn ext_category(e: Seq<char>) -> FileCategory {
    if is_document_ext(e) {
        FileCategory::Document
    } else if is_image_ext(e) {
        FileCategory::Image
    } else if is_video_ext(e) {
        FileCategory::Video
    } else if is_audio_ext(e) {
        FileCategory::Audio
    } else if is_archive_ext(e) {
        FileCategory::Archive
    } else if is_code_ext(e) {
        FileCategory::Code
    } else {
        FileCategory::Unknown
    }
}

/// The category of a path by its extension alone, compared case-insensitively.
pub open spec fn extension_category(path: Seq<char>) -> FileCategory {
    match extension_of(path) {
        Some(e) => ext_category(lower_of(e)),
        None => FileCategory::Unknown,
    }
}

/// The category that a signature family decides, if it decides one: archives,
/// documents and fonts all count as documents.
pub open spec fn signature_category(k: SignatureKind) -> Option<FileCategory> {
    match k {
        SignatureKind::Image => Some(FileCategory::Image),
        SignatureKind::Video => Some(FileCategory::Video),
        SignatureKind::Audio => Some(FileCategory::Audio),
        SignatureKind::Archive => Some(FileCategory::Document),
        SignatureKind::Doc => Some(FileCategory::Document),
        SignatureKind::Font => Some(FileCategory::Document),
        _ => None,
    }
}

/// The category of a path given the signature found in its content: the signature
/// decides where it can, the extension otherwise.
pub open spec fn classify(path: Seq<char>, sig: Option<SignatureKind>) -> FileCategory {
    match sig {
        Some(k) => match signature_category(k) {
            Some(c) => c,
            None => extension_category(path),
        },
        None => extension_category(path),
    }
}

/// The category of a path given its content, or `None` where it could not be read.
pub open spec fn detected(path: Seq<char>, content: Option<Seq<u8>>) -> FileCategory {
    match content {
        Some(b) => if b.len() == 0 {
            extension_category(path)
        } else {
            classify(path, signature_of(b))
        },
        None => extension_category(path),
    }
}

fn is_document_ext_exec(e: &str) -> (r: bool)
    ensures
        r == is_document_ext(e@),
{
    str_eq(e, "pdf")
        || str_eq(e, "doc")
        || str_eq(e, "docx")
        || str_eq(e, "txt")
        || str_eq(e, "rtf")
        || str_eq(e, "odt")
        || str_eq(e, "xls")
        || str_eq(e, "xlsx")
        || str_eq(e, "ppt")
        || str_eq(e, "pptx")
        || str_eq(e, "csv")
}

fn is_image_ext_exec(e: &str) -> (r: bool)
    ensures
        r == is_image_ext(e@),
{
    str_eq(e, "jpg")
        || str_eq(e, "jpeg")
        || str_eq(e, "png")
        || str_eq(e, "gif")
        || str_eq(e, "bmp")
        || str_eq(e, "svg")
        || str_eq(e, "webp")
        || str_eq(e, "ico")
        || str_eq(e, "tiff")
        || str_eq(e, "tif")
}

fn is_video_ext_exec(e: &str) -> (r: bool)
    ensures
        r == is_video_ext(e@),
{
    str_eq(e, "mp4")
        || str_eq(e, "avi")
        || str_eq(e, "mkv")
        || str_eq(e, "mov")
        || str_eq(e, "wmv")
        || str_eq(e, "flv")
        || str_eq(e, "webm")
        || str_eq(e, "m4v")
        || str_eq(e, "mpg")
        || str_eq(e, "mpeg")
}

fn is_audio_ext_exec(e: &str) -> (r: bool)
    ensures
        r == is_audio_ext(e@),
{
    str_eq(e, "mp3")
        || str_eq(e, "wav")
        || str_eq(e, "flac")
        || str_eq(e, "aac")
        || str_eq(e, "ogg")
        || str_eq(e, "m4a")
        || str_eq(e, "wma")
        || str_eq(e, "opus")
}

fn is_archive_ext_exec(e: &str) -> (r: bool)
    ensures
        r == is_archive_ext(e@),
{
    str_eq(e, "zip")
        || str_eq(e, "rar")
        || str_eq(e, "7z")
        || str_eq(e, "tar")
        || str_eq(e, "gz")
        || str_eq(e, "bz2")
        || str_eq(e, "xz")
        || str_eq(e, "tgz")
}

fn is_code_ext_exec(e: &str) -> (r: bool)
    ensures
        r == is_code_ext(e@),
{
    str_eq(e, "rs")
        || str_eq(e, "py")
        || str_eq(e, "js")
        || str_eq(e, "ts")
        || str_eq(e, "go")
        || str_eq(e, "java")
        || str_eq(e, "c")
        || str_eq(e, "cpp")
        || str_eq(e, "h")
        || str_eq(e, "hpp")
        || str_eq(e, "cs")
        || str_eq(e, "rb")
        || str_eq(e, "php")
        || str_eq(e, "swift")
        || str_eq(e, "kt")
        || str_eq(e, "scala")
        || str_eq(e, "r")
        || str_eq(e, "m")
        || str_eq(e, "sh")
        || str_eq(e, "bash")
        || str_eq(e, "zsh")
        || str_eq(e, "fish")
        || str_eq(e, "html")
        || str_eq(e, "css")
        || str_eq(e, "scss")
        || str_eq(e, "sass")
        || str_eq(e, "json")
        || str_eq(e, "xml")
        || str_eq(e, "yaml")
        || str_eq(e, "yml")
        || str_eq(e, "toml")
        || str_eq(e, "sql")
        || str_eq(e, "md")
        || str_eq(e, "rst")
        || str_eq(e, "tex")
}

/// Categorization of files by content and name.
pub struct FileDetector;

impl FileDetector {
    /// The category that the table gives to an extension already in lowercase.
    pub fn category_for_extension(e: &str) -> (r: FileCategory)
        ensures
            r == ext_category(e@),
    {
        if is_document_ext_exec(e) {
            FileCategory::Document
        } else if is_image_ext_exec(e) {
            FileCategory::Image
        } else if is_video_ext_exec(e) {
            FileCategory::Video
        } else if is_audio_ext_exec(e) {
            FileCategory::Audio
        } else if is_archive_ext_exec(e) {
            FileCategory::Archive
        } else if is_code_ext_exec(e) {
            FileCategory::Code
        } else {
            FileCategory::Unknown
        }
    }

    /// The category of a path by its extension, compared case-insensitively;
    /// `Unknown` for a path without one or with one outside the table.
    pub fn detect_by_extension(path: &str) -> (r: FileCategory)
        ensures
            r == extension_category(path@),
    {
        match extension(path) {
            Some(e) => {
                let lower = lowercase(e.as_str());
                Self::category_for_extension(lower.as_str())
            },
            None => FileCategory::Unknown,
        }
    }

    /// The category that a signature family decides, if any.
    pub fn category_for_signature(k: SignatureKind) -> (r: Option<FileCategory>)
        ensures
            r == signature_category(k),
    {
        match k {
            SignatureKind::Image => Some(FileCategory::Image),
            SignatureKind::Video => Some(FileCategory::Video),
            SignatureKind::Audio => Some(FileCategory::Audio),
            SignatureKind::Archive => Some(FileCategory::Document),
            SignatureKind::Doc => Some(FileCategory::Document),
            SignatureKind::Font => Some(FileCategory::Document),
            _ => None,
        }
    }

    /// The category of a path given the signature found in its content.
    pub fn classify_with_signature(path: &str, sig: Option<SignatureKind>) -> (r: FileCategory)
        ensures
            r == classify(path@, sig),
    {
        match sig {
            Some(k) => match Self::category_for_signature(k) {
                Some(c) => c,
                None => Self::detect_by_extension(path),
            },
            None => Self::detect_by_extension(path),
        }
    }

    /// The category of a file from its path and its content (`None` where the content
    /// could not be read): a recognised signature decides, else the extension does.
    pub fn detect_category(path: &str, content: Option<&[u8]>) -> (r: FileCategory)
        ensures
            r == detected(path@, match content {
                Some(b) => Some(b@),
                None => None,
            }),
    {
        match content {
            Some(b) => if b.len() == 0 {
                Self::detect_by_extension(path)
            } else {
                let sig = sniff(b);
                Self::classify_with_signature(path, sig)
            },
            None => Self::detect_by_extension(path),
        }
    }
}

/// A file whose content is unreadable or empty is classified by its extension alone:
/// an extension whose lowercase the table maps gives that category, any other gives
/// `Unknown`.
pub proof fn lemma_extension_fallback(path: Seq<char>, e: Seq<char>, content: Option<Seq<u8>>)
    requires
        extension_of(path) == Some(e),
        content matches Some(b) ==> b.len() == 0,
    ensures
        detected(path, content) == ext_category(lower_of(e)),
        !is_document_ext(lower_of(e)) && !is_image_ext(lower_of(e)) && !is_video_ext(lower_of(e))
            && !is_audio_ext(lower_of(e)) && !is_archive_ext(lower_of(e)) && !is_code_ext(
            lower_of(e),
        ) ==> detected(path, content) == FileCategory::Unknown,
{
}

} // verus!

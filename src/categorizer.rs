//! The rule table from categories to destination directories.

use vstd::prelude::*;
use crate::config::{home_directory, ConfigError};
use crate::detector::FileCategory;
use crate::utils::{join, joined, views};

verus! {

/// Where the files of one category go.
#[derive(Debug)]
pub struct CategoryRule {
    pub name: String,
    pub destination: String,
}

/// The last rule that `rules` gives for `c`, if any.
pub open spec fn lookup(rules: Seq<(FileCategory, CategoryRule)>, c: FileCategory) -> Option<
    CategoryRule,
>
    decreases rules.len(),
{
    if rules.len() == 0 {
        None
    } else if rules.last().0 == c {
        Some(rules.last().1)
    } else {
        lookup(rules.drop_last(), c)
    }
}

/// `o` is a rule with this name and destination.
pub open spec fn rule_is(o: Option<CategoryRule>, name: Seq<char>, destination: Seq<char>) -> bool {
    o matches Some(r) && r.name@ == name && r.destination@ == destination
}

/// Maps each category but `Unknown` to at most one rule; `Unknown` has none.
pub struct Categorizer {
    document: Option<CategoryRule>,
    image: Option<CategoryRule>,
    video: Option<CategoryRule>,
    audio: Option<CategoryRule>,
    archive: Option<CategoryRule>,
    code: Option<CategoryRule>,
}

impl Categorizer {
    /// The rule for a category.
    pub closed spec fn rule_for(&self, c: FileCategory) -> Option<CategoryRule> {
        match c {
            FileCategory::Document => self.document,
            FileCategory::Image => self.image,
            FileCategory::Video => self.video,
            FileCategory::Audio => self.audio,
            FileCategory::Archive => self.archive,
            FileCategory::Code => self.code,
            FileCategory::Unknown => None,
        }
    }

    /// The table holds exactly the default rules under `home`.
    pub open spec fn is_default_under(&self, home: Seq<char>) -> bool {
        &&& rule_is(self.rule_for(FileCategory::Document), "Documents"@, joined(home, "Documents"@))
        &&& rule_is(self.rule_for(FileCategory::Image), "Images"@, joined(home, "Pictures"@))
        &&& rule_is(self.rule_for(FileCategory::Video), "Videos"@, joined(home, "Videos"@))
        &&& rule_is(self.rule_for(FileCategory::Audio), "Music"@, joined(home, "Music"@))
        &&& rule_is(
            self.rule_for(FileCategory::Archive),
            "Archives"@,
            joined(joined(home, "Documents"@), "Archives"@),
        )
        &&& rule_is(self.rule_for(FileCategory::Code), "Projects"@, joined(home, "Projects"@))
        &&& self.rule_for(FileCategory::Unknown) is None
    }

    /// The default rules under a home directory: documents to `Documents`, images to
    /// `Pictures`, videos to `Videos`, audio to `Music`, archives to
    /// `Documents/Archives`, code to `Projects`.
    pub fn from_home(home: &str) -> (r: Self)
        ensures
            r.is_default_under(home@),
    {
        let documents = join(home, "Documents");
        let archives = join(documents.as_str(), "Archives");
        Categorizer {
            document: Some(
                CategoryRule { name: String::from_str("Documents"), destination: documents },
            ),
            image: Some(
                CategoryRule {
                    name: String::from_str("Images"),
                    destination: join(home, "Pictures"),
                },
            ),
            video: Some(
                CategoryRule { name: String::from_str("Videos"), destination: join(home, "Videos") },
            ),
            audio: Some(
                CategoryRule { name: String::from_str("Music"), destination: join(home, "Music") },
            ),
            archive: Some(CategoryRule { name: String::from_str("Archives"), destination: archives }),
            code: Some(
                CategoryRule {
                    name: String::from_str("Projects"),
                    destination: join(home, "Projects"),
                },
            ),
        }
    }

    /// The default rules under the user's home directory.
    pub fn new() -> (r: Result<Self, ConfigError>)
        ensures
            r matches Err(e) ==> e == ConfigError::NoHomeDirectory,
            r matches Ok(c) ==> exists|home: Seq<char>| c.is_default_under(home),
    {
        match home_directory() {
            Some(h) => Ok(Self::from_home(h.as_str())),
            None => Err(ConfigError::NoHomeDirectory),
        }
    }

    /// A table with the given rules: where a category is listed more than once the
    /// last entry counts, and rules for `Unknown` are ignored.
    pub fn with_custom_rules(rules: Vec<(FileCategory, CategoryRule)>) -> (r: Self)
        ensures
            forall|c: FileCategory|
                c != FileCategory::Unknown ==> #[trigger] r.rule_for(c) == lookup(rules@, c),
            r.rule_for(FileCategory::Unknown) is None,
    {
        let ghost all = rules@;
        let mut rest = rules;
        let mut t = Categorizer {
            document: None,
            image: None,
            video: None,
            audio: None,
            archive: None,
            code: None,
        };
        while rest.len() > 0
            invariant
                forall|c: FileCategory|
                    c != FileCategory::Unknown ==> #[trigger] lookup(all, c) == match t.rule_for(c) {
                        Some(x) => Some(x),
                        None => lookup(rest@, c),
                    },
            decreases rest@.len(),
        {
            let ghost before = rest@;
            let (c, rule) = rest.pop().unwrap();
            proof {
                assert(before.drop_last() == rest@);
                assert(before.last() == (c, rule));
                assert forall|d: FileCategory|
                    #[trigger] lookup(before, d) == (if d == c {
                        Some(rule)
                    } else {
                        lookup(rest@, d)
                    }) by {}
            }
            match c {
                FileCategory::Document => if t.document.is_none() {
                    t.document = Some(rule);
                },
                FileCategory::Image => if t.image.is_none() {
                    t.image = Some(rule);
                },
                FileCategory::Video => if t.video.is_none() {
                    t.video = Some(rule);
                },
                FileCategory::Audio => if t.audio.is_none() {
                    t.audio = Some(rule);
                },
                FileCategory::Archive => if t.archive.is_none() {
                    t.archive = Some(rule);
                },
                FileCategory::Code => if t.code.is_none() {
                    t.code = Some(rule);
                },
                FileCategory::Unknown => {},
            }
        }
        t
    }

    /// The rule for a category; none for `Unknown` and for unmapped categories.
    pub fn get_rule(&self, category: &FileCategory) -> (r: Option<&CategoryRule>)
        ensures
            *category == FileCategory::Unknown ==> r is None,
            match r {
                Some(x) => self.rule_for(*category) == Some(*x),
                None => self.rule_for(*category) is None,
            },
    {
        let slot = match category {
            FileCategory::Document => &self.document,
            FileCategory::Image => &self.image,
            FileCategory::Video => &self.video,
            FileCategory::Audio => &self.audio,
            FileCategory::Archive => &self.archive,
            FileCategory::Code => &self.code,
            FileCategory::Unknown => return None,
        };
        match slot {
            Some(x) => Some(x),
            None => None,
        }
    }

    /// The destination directory for a category; none for `Unknown` and for unmapped
    /// categories.
    pub fn get_destination(&self, category: &FileCategory) -> (r: Option<&String>)
        ensures
            *category == FileCategory::Unknown ==> r is None,
            match r {
                Some(d) => self.rule_for(*category) matches Some(x) && x.destination == *d,
                None => self.rule_for(*category) is None,
            },
    {
        match self.get_rule(category) {
            Some(x) => Some(&x.destination),
            None => None,
        }
    }

    /// The configured destination directories, in the order of the categories.
    pub open spec fn destination_list(&self) -> Seq<Seq<char>> {
        destination_in(self.rule_for(FileCategory::Document)) + destination_in(
            self.rule_for(FileCategory::Image),
        ) + destination_in(self.rule_for(FileCategory::Video)) + destination_in(
            self.rule_for(FileCategory::Audio),
        ) + destination_in(self.rule_for(FileCategory::Archive)) + destination_in(
            self.rule_for(FileCategory::Code),
        )
    }

    /// Every configured destination directory, once per rule, in the order of the
    /// categories.
    pub fn destinations(&self) -> (r: Vec<String>)
        ensures
            views(r@) == self.destination_list(),
    {
        let mut out: Vec<String> = Vec::new();
        push_destination(&mut out, &self.document);
        push_destination(&mut out, &self.image);
        push_destination(&mut out, &self.video);
        push_destination(&mut out, &self.audio);
        push_destination(&mut out, &self.archive);
        push_destination(&mut out, &self.code);
        out
    }
}

/// The destination of a rule, as a sequence of none or one.
pub open spec fn destination_in(o: Option<CategoryRule>) -> Seq<Seq<char>> {
    match o {
        Some(x) => seq![x.destination@],
        None => Seq::empty(),
    }
}

fn push_destination(out: &mut Vec<String>, o: &Option<CategoryRule>)
    ensures
        views(final(out)@) == views(old(out)@) + destination_in(*o),
{
    match o {
        Some(x) => {
            out.push(x.destination.clone());
            assert(views(final(out)@) =~= views(old(out)@) + destination_in(*o));
        },
        None => {
            assert(views(old(out)@) + destination_in(*o) =~= views(old(out)@));
        },
    }
}

} // verus!

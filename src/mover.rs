//! Conflict-safe move planning: where a file goes, with a numeric suffix when its
//! name is already taken in the destination.

use vstd::prelude::*;
use crate::utils::{
    contains_str, contains_text, extension, extension_of, file_name, file_name_of, file_stem,
    file_stem_of, join, joined, parent, parent_of,
};

verus! {

/// Suffixes tried are `1` up to, not including, this bound.
pub const MAX_ATTEMPTS: u64 = 10000;

/// Why a move cannot be planned.
#[derive(Debug, Clone, Copy, PartialEq, Eq, Structural)]
pub enum MoveError {
    /// The source file does not exist.
    NotFound,
    /// The source path has no file name.
    NoFileName,
    /// The target path has no file stem.
    NoFileStem,
    /// The target path has no parent directory.
    NoParent,
    /// Every suffix below the bound is taken.
    ConflictUnresolved,
}

pub open spec fn digit_char(d: nat) -> char {
    if d == 0 {
        '0'
    } else if d == 1 {
        '1'
    } else if d == 2 {
        '2'
    } else if d == 3 {
        '3'
    } else if d == 4 {
        '4'
    } else if d == 5 {
        '5'
    } else if d == 6 {
        '6'
    } else if d == 7 {
        '7'
    } else if d == 8 {
        '8'
    } else {
        '9'
    }
}

/// The decimal numeral of `n`, without leading zeros.
pub open spec fn decimal(n: nat) -> Seq<char>
    decreases n,
{
    if n < 10 {
        seq![digit_char(n)]
    } else {
        decimal(n / 10).push(digit_char(n % 10))
    }
}

/// The name tried with suffix `i`: `stem_i.ext`, or `stem_i` where the extension is empty.
pub open spec fn candidate(stem: Seq<char>, ext: Seq<char>, i: int) -> Seq<char> {
    if ext.len() == 0 {
        stem + seq!['_'] + decimal(i as nat)
    } else {
        stem + seq!['_'] + decimal(i as nat) + seq!['.'] + ext
    }
}

/// `i` is the smallest suffix below the bound whose name is free.
pub open spec fn first_free(stem: Seq<char>, ext: Seq<char>, taken: Seq<String>, i: int) -> bool {
    &&& 1 <= i < MAX_ATTEMPTS
    &&& !contains_text(taken, candidate(stem, ext, i))
    &&& forall|j: int| 1 <= j < i ==> contains_text(taken, #[trigger] candidate(stem, ext, j))
}

/// Every suffix below the bound is taken.
pub open spec fn all_taken(stem: Seq<char>, ext: Seq<char>, taken: Seq<String>) -> bool {
    forall|j: int| 1 <= j < MAX_ATTEMPTS ==> contains_text(taken, #[trigger] candidate(stem, ext, j))
}

/// `r` is the outcome of choosing a free suffixed name.
pub open spec fn free_name_chosen(
    stem: Seq<char>,
    ext: Seq<char>,
    taken: Seq<String>,
    r: Result<String, MoveError>,
) -> bool {
    match r {
        Ok(n) => exists|i: int| first_free(stem, ext, taken, i) && n@ == candidate(stem, ext, i),
        Err(e) => e == MoveError::ConflictUnresolved && all_taken(stem, ext, taken),
    }
}

/// A path is occupied when its file name is among the names taken in its directory;
/// a path without a file name names a directory that exists.
pub open spec fn occupied(path: Seq<char>, taken: Seq<String>) -> bool {
    match file_name_of(path) {
        Some(n) => contains_text(taken, n),
        None => true,
    }
}

pub open spec fn extension_or_empty(path: Seq<char>) -> Seq<char> {
    match extension_of(path) {
        Some(e) => e,
        None => Seq::empty(),
    }
}

/// `r` is the first free suffixed name in `dir`, or `ConflictUnresolved`.
pub open spec fn suffixed_in(
    dir: Seq<char>,
    stem: Seq<char>,
    ext: Seq<char>,
    taken: Seq<String>,
    r: Result<String, MoveError>,
) -> bool {
    match r {
        Ok(p) => exists|i: int|
            first_free(stem, ext, taken, i) && p@ == joined(dir, candidate(stem, ext, i)),
        Err(e) => e == MoveError::ConflictUnresolved && all_taken(stem, ext, taken),
    }
}

/// `r` is the outcome of resolving a name conflict on `path`, given the names
/// `taken` in its directory.
pub open spec fn conflict_resolved(
    path: Seq<char>,
    taken: Seq<String>,
    r: Result<String, MoveError>,
) -> bool {
    if !occupied(path, taken) {
        r matches Ok(p) && p@ == path
    } else {
        match file_stem_of(path) {
            None => r == Err::<String, MoveError>(MoveError::NoFileStem),
            Some(stem) => match parent_of(path) {
                None => r == Err::<String, MoveError>(MoveError::NoParent),
                Some(dir) => suffixed_in(dir, stem, extension_or_empty(path), taken, r),
            },
        }
    }
}

/// `r` is the outcome of planning the move of `source` into `dir`.
pub open spec fn move_planned(
    source: Seq<char>,
    dir: Seq<char>,
    source_exists: bool,
    taken: Seq<String>,
    r: Result<String, MoveError>,
) -> bool {
    if !source_exists {
        r == Err::<String, MoveError>(MoveError::NotFound)
    } else {
        match file_name_of(source) {
            None => r == Err::<String, MoveError>(MoveError::NoFileName),
            Some(n) => conflict_resolved(joined(dir, n), taken, r),
        }
    }
}

fn digit_str(d: u64) -> (r: &'static str)
    requires
        d < 10,
    ensures
        r@ == seq![digit_char(d as nat)],
{
    proof {
        reveal_strlit("0");
        reveal_strlit("1");
        reveal_strlit("2");
        reveal_strlit("3");
        reveal_strlit("4");
        reveal_strlit("5");
        reveal_strlit("6");
        reveal_strlit("7");
        reveal_strlit("8");
        reveal_strlit("9");
    }
    if d == 0 {
        "0"
    } else if d == 1 {
        "1"
    } else if d == 2 {
        "2"
    } else if d == 3 {
        "3"
    } else if d == 4 {
        "4"
    } else if d == 5 {
        "5"
    } else if d == 6 {
        "6"
    } else if d == 7 {
        "7"
    } else if d == 8 {
        "8"
    } else {
        "9"
    }
}

/// The decimal numeral of `n`.
pub fn decimal_string(n: u64) -> (r: String)
    ensures
        r@ == decimal(n as nat),
    decreases n,
{
    if n < 10 {
        String::from_str(digit_str(n))
    } else {
        let mut s = decimal_string(n / 10);
        s.append(digit_str(n % 10));
        s
    }
}

/// The name with suffix `i`: `stem_i.ext`, or `stem_i` where `ext` is empty.
pub fn candidate_name(stem: &str, ext: &str, i: u64) -> (r: String)
    ensures
        r@ == candidate(stem@, ext@, i as int),
{
    proof {
        reveal_strlit("_");
        reveal_strlit(".");
    }
    let mut s = String::from_str(stem);
    s.append("_");
    let digits = decimal_string(i);
    s.append(digits.as_str());
    if ext.unicode_len() > 0 {
        s.append(".");
        s.append(ext);
    }
    s
}

impl FileMover {
    /// The first name `stem_i[.ext]`, for `i` from 1 below the bound, that is not among
    /// the `taken` names; `ConflictUnresolved` where all of them are.
    pub fn pick_free_name(stem: &str, ext: &str, taken: &Vec<String>) -> (r: Result<
        String,
        MoveError,
    >)
        ensures
            free_name_chosen(stem@, ext@, taken@, r),
    {
        let mut i: u64 = 1;
        while i < MAX_ATTEMPTS
            invariant
                1 <= i <= MAX_ATTEMPTS,
                forall|j: int| 1 <= j < i ==> contains_text(taken@, #[trigger] candidate(stem@, ext@, j)),
            decreases MAX_ATTEMPTS - i,
        {
            let name = candidate_name(stem, ext, i);
            if !contains_str(taken, name.as_str()) {
                assert(first_free(stem@, ext@, taken@, i as int));
                return Ok(name);
            }
            i += 1;
        }
        Err(MoveError::ConflictUnresolved)
    }

    /// The path to move onto in place of `path`: `path` itself where its name is free
    /// among the `taken` names of its directory, else the first free suffixed name there.
    pub fn resolve_conflict(path: &str, taken: &Vec<String>) -> (r: Result<String, MoveError>)
        ensures
            conflict_resolved(path@, taken@, r),
    {
        let name = file_name(path);
        let free = match &name {
            Some(n) => !contains_str(taken, n.as_str()),
            None => false,
        };
        if free {
            return Ok(String::from_str(path));
        }
        let stem = match file_stem(path) {
            Some(s) => s,
            None => return Err(MoveError::NoFileStem),
        };
        let ext = match extension(path) {
            Some(e) => e,
            None => String::new(),
        };
        let dir = match parent(path) {
            Some(d) => d,
            None => return Err(MoveError::NoParent),
        };
        match Self::pick_free_name(stem.as_str(), ext.as_str(), taken) {
            Ok(n) => {
                let p = join(dir.as_str(), n.as_str());
                proof {
                    let i = choose|i: int|
                        first_free(stem@, ext@, taken@, i) && n@ == candidate(stem@, ext@, i);
                    assert(suffixed_in(dir@, stem@, ext@, taken@, Ok(p)));
                }
                Ok(p)
            },
            Err(e) => Err(e),
        }
    }

    /// The final path for moving `source` into `destination_dir`, given whether the
    /// source exists and the names already taken in the destination. A missing source
    /// is `NotFound`, decided before anything else, so nothing is touched.
    pub fn plan_move(
        source: &str,
        destination_dir: &str,
        source_exists: bool,
        taken: &Vec<String>,
    ) -> (r: Result<String, MoveError>)
        ensures
            move_planned(source@, destination_dir@, source_exists, taken@, r),
            !source_exists ==> r == Err::<String, MoveError>(MoveError::NotFound),
    {
        if !source_exists {
            return Err(MoveError::NotFound);
        }
        match file_name(source) {
            None => Err(MoveError::NoFileName),
            Some(n) => {
                let target = join(destination_dir, n.as_str());
                Self::resolve_conflict(target.as_str(), taken)
            },
        }
    }
}

/// Relocation of files into destination directories.
pub struct FileMover;

/// Suffixes count up from one: where the plain name is taken and `stem_1` is free,
/// `stem_1` is chosen; where `stem_1` is taken too and `stem_2` is free, `stem_2` is.
/// Whatever is chosen is free, and every smaller suffix is taken.
pub proof fn lemma_suffixes_count_up(
    stem: Seq<char>,
    ext: Seq<char>,
    taken: Seq<String>,
    r: Result<String, MoveError>,
)
    requires
        free_name_chosen(stem, ext, taken, r),
    ensures
        !contains_text(taken, candidate(stem, ext, 1)) ==> (r matches Ok(n) && n@ == candidate(
            stem,
            ext,
            1,
        )),
        contains_text(taken, candidate(stem, ext, 1)) && !contains_text(taken, candidate(stem, ext, 2))
            ==> (r matches Ok(n) && n@ == candidate(stem, ext, 2)),
        r matches Ok(n) ==> !contains_text(taken, n@),
{
    if !contains_text(taken, candidate(stem, ext, 1)) {
        assert(!all_taken(stem, ext, taken));
        if let Ok(n) = r {
            let i = choose|i: int| first_free(stem, ext, taken, i) && n@ == candidate(stem, ext, i);
            if i > 1 {
                assert(contains_text(taken, candidate(stem, ext, 1)));
            }
        }
    }
    if contains_text(taken, candidate(stem, ext, 1)) && !contains_text(taken, candidate(stem, ext, 2)) {
        assert(!all_taken(stem, ext, taken));
        if let Ok(n) = r {
            let i = choose|i: int| first_free(stem, ext, taken, i) && n@ == candidate(stem, ext, i);
            if i > 2 {
                assert(contains_text(taken, candidate(stem, ext, 2)));
            }
            if i < 2 {
                assert(i == 1);
            }
        }
    }
}

} // verus!

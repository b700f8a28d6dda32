//! The decisions of the greedy semantic subfolder descent. Similarities are given in
//! millionths (a cosine similarity of 0.7 is 700000); listing directories and computing
//! embeddings is left to the caller, which runs one step per directory.

use vstd::prelude::*;
use crate::utils::{
    contains_str, contains_text, file_stem, file_stem_of, is_hidden_name, is_hidden_name_exec,
    join, joined, lemma_text_lt_total, lemma_text_lt_transitive, opt_view, str_lt, text_lt, views,
};

verus! {

/// A subfolder is entered only when its similarity, in millionths, reaches this value.
pub const SIMILARITY_THRESHOLD: i64 = 700000;

/// A directory name that the descent may consider: not hidden and not excluded.
pub open spec fn admissible(name: Seq<char>, excluded: Seq<String>) -> bool {
    !is_hidden_name(name) && !contains_text(excluded, name)
}

/// The admissible names of `entries`, in their order.
pub open spec fn kept(entries: Seq<Seq<char>>, excluded: Seq<String>) -> Seq<Seq<char>>
    decreases entries.len(),
{
    if entries.len() == 0 {
        Seq::empty()
    } else {
        let prev = kept(entries.drop_last(), excluded);
        if admissible(entries.last(), excluded) {
            prev.push(entries.last())
        } else {
            prev
        }
    }
}

/// Candidate `k` is preferred to candidate `j`: a higher score, or an equal score and a
/// name that comes first lexicographically (for equal names, the earlier position).
pub open spec fn beats(names: Seq<Seq<char>>, scores: Seq<i64>, k: int, j: int) -> bool {
    scores[j] < scores[k] || (scores[j] == scores[k] && (text_lt(names[k], names[j]) || (
    names[k] == names[j] && k < j)))
}

/// `k` is the preferred candidate: a greatest score, ties broken by the lexicographically
/// smallest name.
pub open spec fn is_best(names: Seq<Seq<char>>, scores: Seq<i64>, k: int) -> bool {
    &&& 0 <= k < scores.len()
    &&& forall|j: int| 0 <= j < scores.len() && j != k ==> #[trigger] beats(names, scores, k, j)
}

/// The directory to descend into from `current`, if any: the best-scoring candidate
/// (ties to the lexicographically smallest name), where its score reaches the threshold.
pub open spec fn next_chosen(
    current: Seq<char>,
    names: Seq<Seq<char>>,
    scores: Seq<i64>,
    r: Option<Seq<char>>,
) -> bool {
    match r {
        Some(d) => exists|k: int|
            is_best(names, scores, k) && scores[k] >= SIMILARITY_THRESHOLD && d == joined(
                current,
                names[k],
            ),
        None => forall|j: int| 0 <= j < scores.len() ==> #[trigger] scores[j] < SIMILARITY_THRESHOLD,
    }
}

/// One step of the descent: go deeper, or stop at a directory.
#[derive(Debug)]
pub enum Descent {
    /// List and score the subdirectories of this directory next.
    Explore(String),
    /// The search ends here.
    Settled(String),
}

pub open spec fn descent_view(d: Descent) -> (bool, Seq<char>) {
    match d {
        Descent::Explore(p) => (true, p@),
        Descent::Settled(p) => (false, p@),
    }
}

/// The stem to search for, if a search is to happen: none where the file has no
/// stem, an empty one, or the destination does not exist.
pub open spec fn search_stem(file_path: Seq<char>, destination_exists: bool) -> Option<Seq<char>> {
    match file_stem_of(file_path) {
        Some(s) => if s.len() > 0 && destination_exists {
            Some(s)
        } else {
            None
        },
        None => None,
    }
}

/// Chooses destination subfolders by the similarity of their names to a file's stem.
pub struct SubfolderMatcher {
    /// Folder names that are never entered or considered.
    pub excluded_folders: Vec<String>,
}

impl SubfolderMatcher {
    pub fn new(excluded_folders: Vec<String>) -> (r: Self)
        ensures
            r.excluded_folders@ == excluded_folders@,
    {
        SubfolderMatcher { excluded_folders }
    }

    /// The stem to embed for `file_path`, or `None` where the destination itself is the
    /// answer: the stem is missing or empty, or the destination does not exist.
    pub fn begin(file_path: &str, destination_exists: bool) -> (r: Option<String>)
        ensures
            opt_view(r) == search_stem(file_path@, destination_exists),
            !destination_exists ==> r is None,
            file_stem_of(file_path@) matches Some(s) && s.len() == 0 ==> r is None,
    {
        match file_stem(file_path) {
            Some(s) => if s.unicode_len() > 0 && destination_exists {
                Some(s)
            } else {
                None
            },
            None => None,
        }
    }

    /// The subdirectory names of `entries` that the descent may consider, in order:
    /// hidden and excluded names are left out.
    pub fn candidates(&self, entries: &Vec<String>) -> (r: Vec<String>)
        ensures
            views(r@) == kept(views(entries@), self.excluded_folders@),
    {
        let mut out: Vec<String> = Vec::new();
        let mut i: usize = 0;
        while i < entries.len()
            invariant
                0 <= i <= entries@.len(),
                views(out@) == kept(views(entries@.subrange(0, i as int)), self.excluded_folders@),
            decreases entries@.len() - i,
        {
            let name = entries[i].as_str();
            proof {
                assert(views(entries@.subrange(0, i + 1)).drop_last() =~= views(
                    entries@.subrange(0, i as int),
                ));
                assert(views(entries@.subrange(0, i + 1)).last() == entries@[i as int]@);
            }
            if !is_hidden_name_exec(name) && !contains_str(&self.excluded_folders, name) {
                out.push(entries[i].clone());
                assert(views(out@) =~= kept(
                    views(entries@.subrange(0, i + 1)),
                    self.excluded_folders@,
                ));
            }
            i += 1;
        }
        assert(entries@.subrange(0, entries@.len() as int) =~= entries@);
        out
    }

    /// The position of the preferred candidate: a greatest score, ties broken by the
    /// lexicographically smallest name; `None` for no candidates.
    pub fn best_candidate(names: &Vec<String>, scores: &Vec<i64>) -> (r: Option<usize>)
        requires
            names@.len() == scores@.len(),
        ensures
            r is None <==> scores@.len() == 0,
            r matches Some(k) ==> is_best(views(names@), scores@, k as int),
    {
        if scores.len() == 0 {
            return None;
        }
        let ghost ns = views(names@);
        let mut best: usize = 0;
        let mut i: usize = 1;
        while i < scores.len()
            invariant
                names@.len() == scores@.len(),
                ns == views(names@),
                1 <= i <= scores@.len(),
                0 <= best < i,
                forall|j: int| 0 <= j < i && j != best ==> #[trigger] beats(ns, scores@, best as int, j),
            decreases scores@.len() - i,
        {
            assert(ns[i as int] == names@[i as int]@);
            assert(ns[best as int] == names@[best as int]@);
            if scores[i] > scores[best] || (scores[i] == scores[best] && str_lt(
                names[i].as_str(),
                names[best].as_str(),
            )) {
                proof {
                    let old_best = best as int;
                    assert forall|j: int| 0 <= j < i + 1 && j != i implies #[trigger] beats(
                        ns,
                        scores@,
                        i as int,
                        j,
                    ) by {
                        if j != old_best {
                            assert(beats(ns, scores@, old_best, j));
                            if scores@[j] == scores@[old_best] && scores@[old_best] == scores@[i as int] {
                                if text_lt(ns[old_best], ns[j]) {
                                    lemma_text_lt_transitive(ns[i as int], ns[old_best], ns[j]);
                                }
                            }
                        }
                    }
                }
                best = i;
            } else {
                proof {
                    if scores@[i as int] == scores@[best as int] && ns[i as int] != ns[best as int] {
                        lemma_text_lt_total(ns[i as int], ns[best as int]);
                    }
                    assert(beats(ns, scores@, best as int, i as int));
                }
            }
            i += 1;
        }
        Some(best)
    }

    /// The subdirectory of `current` to descend into: the best-scoring candidate, ties
    /// going to the lexicographically smallest name, where its score reaches the
    /// threshold; `None` otherwise.
    pub fn next_directory(current: &str, candidates: &Vec<String>, scores: &Vec<i64>) -> (r:
        Option<String>)
        requires
            candidates@.len() == scores@.len(),
        ensures
            next_chosen(current@, views(candidates@), scores@, opt_view(r)),
    {
        match Self::best_candidate(candidates, scores) {
            Some(k) => if scores[k] >= SIMILARITY_THRESHOLD {
                let d = join(current, candidates[k].as_str());
                assert(views(candidates@)[k as int] == candidates@[k as int]@);
                Some(d)
            } else {
                assert forall|j: int| 0 <= j < scores@.len() implies #[trigger] scores@[j]
                    < SIMILARITY_THRESHOLD by {
                    if j != k {
                        assert(beats(views(candidates@), scores@, k as int, j));
                    }
                }
                None
            },
            None => None,
        }
    }

    /// One step of the descent from `current`, given its admissible subdirectories and
    /// their scores: settle at `current` where none remains or none reaches the
    /// threshold, else explore the chosen one.
    pub fn step(current: &str, candidates: &Vec<String>, scores: &Vec<i64>) -> (r: Descent)
        requires
            candidates@.len() == scores@.len(),
        ensures
            descent_view(r).0 ==> next_chosen(
                current@,
                views(candidates@),
                scores@,
                Some(descent_view(r).1),
            ),
            !descent_view(r).0 ==> descent_view(r).1 == current@ && next_chosen(
                current@,
                views(candidates@),
                scores@,
                None,
            ),
    {
        match Self::next_directory(current, candidates, scores) {
            Some(d) => Descent::Explore(d),
            None => Descent::Settled(String::from_str(current)),
        }
    }
}

/// Every name kept for the descent is admissible, and comes from the entries.
pub proof fn lemma_kept_admissible(entries: Seq<Seq<char>>, excluded: Seq<String>)
    ensures
        forall|j: int|
            0 <= j < kept(entries, excluded).len() ==> admissible(
                #[trigger] kept(entries, excluded)[j],
                excluded,
            ) && entries.contains(kept(entries, excluded)[j]),
    decreases entries.len(),
{
    if entries.len() > 0 {
        lemma_kept_admissible(entries.drop_last(), excluded);
        let prev = kept(entries.drop_last(), excluded);
        assert forall|j: int| 0 <= j < kept(entries, excluded).len() implies admissible(
            #[trigger] kept(entries, excluded)[j],
            excluded,
        ) && entries.contains(kept(entries, excluded)[j]) by {
            if j < prev.len() {
                let x = prev[j];
                assert(entries.drop_last().contains(x));
                let m = choose|m: int| 0 <= m < entries.drop_last().len() && entries.drop_last()[m] == x;
                assert(entries[m] == x);
            } else {
                assert(entries[entries.len() - 1] == entries.last());
            }
        }
    }
}

/// An excluded or hidden folder is never entered: a step that explores goes into a
/// subdirectory of `current` whose name is among the entries, admissible, and scored
/// at least the threshold; where only excluded or hidden folders would reach it, the
/// step settles at `current`.
pub proof fn lemma_excluded_never_entered(
    current: Seq<char>,
    entries: Seq<Seq<char>>,
    excluded: Seq<String>,
    scores: Seq<i64>,
    r: Option<Seq<char>>,
)
    requires
        scores.len() == kept(entries, excluded).len(),
        next_chosen(current, kept(entries, excluded), scores, r),
    ensures
        r matches Some(d) ==> exists|n: Seq<char>|
            d == joined(current, n) && entries.contains(n) && admissible(n, excluded),
        (forall|j: int| 0 <= j < scores.len() ==> #[trigger] scores[j] < SIMILARITY_THRESHOLD)
            ==> r is None,
{
    lemma_kept_admissible(entries, excluded);
    if let Some(d) = r {
        let k = choose|k: int|
            is_best(kept(entries, excluded), scores, k) && scores[k] >= SIMILARITY_THRESHOLD && d == joined(
                current,
                kept(entries, excluded)[k],
            );
        let n = kept(entries, excluded)[k];
        assert(admissible(n, excluded) && entries.contains(n));
    }
}

} // verus!

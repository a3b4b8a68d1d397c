//! Keyword classifier that maps a work instruction to an occupation of the
//! catalog, estimates its duration and caps its payment.
//!
//! Units: wages and payments in cents, durations in thousandths of an hour,
//! confidence in thousandths.

use vstd::prelude::*;
use crate::catalog::{
    is_reference_catalog, load_occupations, occupation_wf, Occupation, OccupationCategory,
    MAX_HOURLY_WAGE,
};
use crate::search::{first_where, lemma_first_skip};
use crate::text::{
    contains, count_words, decimal, decimal_of, is_substring, lower_of, lowercase, str_eq,
    word_count,
};

verus! {

/// Shortest duration an estimate may give: a quarter of an hour.
pub const MIN_HOURS: u64 = 250;

/// Longest duration an estimate may give: forty hours.
pub const MAX_HOURS: u64 = 40_000;

/// Confidence of the fallback classification: 0.3.
pub const FALLBACK_CONFIDENCE: u64 = 300;

/// Full confidence: 1.0.
pub const FULL_CONFIDENCE: u64 = 1000;

/// Hourly wage of the fallback occupation, in cents.
pub const FALLBACK_WAGE: u64 = 6400;

/// Outcome of classifying one instruction.
#[derive(Debug)]
pub struct ClassificationResult {
    /// Matched occupation name.
    pub occupation: String,
    /// Hourly wage of that occupation, in cents.
    pub hourly_wage: u64,
    /// Estimated duration, in thousandths of an hour.
    pub estimated_hours: u64,
    /// Payment ceiling (duration times wage), in cents.
    pub max_payment: u64,
    /// Confidence of the match, in thousandths.
    pub confidence: u64,
    /// Category of the matched occupation.
    pub category: OccupationCategory,
    /// Short explanation of the classification.
    pub reasoning: String,
}

/// One pair of the keyword index: a phrase and the catalog position of an
/// occupation that lists it.
#[derive(Clone, Copy, Debug)]
pub struct IndexEntry {
    pub keyword: &'static str,
    pub occupation: usize,
}

/// Classifier over the built-in catalog.
#[derive(Debug)]
pub struct TaskClassifier {
    occupations: Vec<Occupation>,
    keyword_index: Vec<IndexEntry>,
    fallback_occupation: String,
    fallback_wage: u64,
}

/// Index entries for the keywords of the occupation at `pos`.
pub open spec fn entries_of(keywords: Seq<&'static str>, pos: int) -> Seq<IndexEntry> {
    keywords.map_values(|k: &'static str| IndexEntry { keyword: k, occupation: pos as usize })
}

/// The keyword index of a catalog: for each occupation in order, one entry
/// per keyword it lists, in the order listed.
pub open spec fn index_of(occs: Seq<Occupation>) -> Seq<IndexEntry>
    decreases occs.len(),
{
    if occs.len() == 0 {
        Seq::empty()
    } else {
        index_of(occs.drop_last()) + entries_of(occs.last().keywords@, occs.len() - 1)
    }
}

/// Score of the occupation at `pos`: how many index entries for it hold a
/// keyword that occurs in `text`.
pub open spec fn score(index: Seq<IndexEntry>, text: Seq<char>, pos: int) -> nat
    decreases index.len(),
{
    if index.len() == 0 {
        0
    } else {
        score(index.drop_last(), text, pos) + if index.last().occupation == pos
            && is_substring(index.last().keyword@, text) {
            1nat
        } else {
            0nat
        }
    }
}

/// The occupation at `pos` has a positive score that no other of the first
/// `n` occupations exceeds.
pub open spec fn is_top(index: Seq<IndexEntry>, text: Seq<char>, n: int) -> spec_fn(int) -> bool {
    |pos: int|
        0 < score(index, text, pos) && forall|k: int|
            0 <= k < n ==> #[trigger] score(index, text, k) <= score(index, text, pos)
}

/// The winning occupation: the first of the best-scoring ones, if any
/// occupation scored at all.
pub open spec fn best_match(index: Seq<IndexEntry>, text: Seq<char>, n: int) -> Option<int> {
    first_where(is_top(index, text, n), n)
}

/// Confidence, in thousandths, of a match on `matched` keywords:
/// `min(matched / 3, 1)`, rounded to the nearest thousandth.
pub open spec fn confidence_of(matched: nat) -> nat {
    if matched >= 3 {
        FULL_CONFIDENCE as nat
    } else {
        ((2 * 1000 * matched + 3) / 6) as nat
    }
}

/// Markers of a larger task: "implement" in the lowercased text, or one of
/// "build", "create", "design", "develop" in the text as written.
pub open spec fn complex_marked(s: Seq<char>, lowered: Seq<char>) -> bool {
    is_substring("implement"@, lowered) || is_substring("build"@, s) || is_substring(
        "create"@,
        s,
    ) || is_substring("design"@, s) || is_substring("develop"@, s)
}

/// Markers of a small task: "fix" in the lowercased text, or one of
/// "update", "change", "review" in the text as written.
pub open spec fn simple_marked(s: Seq<char>, lowered: Seq<char>) -> bool {
    is_substring("fix"@, lowered) || is_substring("update"@, s) || is_substring(
        "change"@,
        s,
    ) || is_substring("review"@, s)
}

/// Base duration, in thousandths of an hour, before scaling by length.
pub open spec fn base_hours(s: Seq<char>, lowered: Seq<char>) -> int {
    if complex_marked(s, lowered) {
        2000
    } else if simple_marked(s, lowered) {
        500
    } else {
        1000
    }
}

pub open spec fn clamp(x: int, lo: int, hi: int) -> int {
    if x < lo {
        lo
    } else if x > hi {
        hi
    } else {
        x
    }
}

/// Estimated duration of an instruction, in thousandths of an hour: the
/// base duration scaled by `clamp(words / 20, 0.5, 2.0)`, then clamped to
/// a quarter of an hour up to forty hours. `lowered` is `s` lowercased.
pub open spec fn hours_of(s: Seq<char>, lowered: Seq<char>) -> int {
    clamp(
        base_hours(s, lowered) * clamp(word_count(s) as int, 10, 40) / 20,
        MIN_HOURS as int,
        MAX_HOURS as int,
    )
}

/// `hours` (thousandths of an hour) times `wage` (cents an hour), in cents,
/// rounded to the nearest cent with halves rounded up.
pub open spec fn payment_of(hours: int, wage: int) -> int {
    (hours * wage + 500) / 1000
}

pub open spec fn fallback_reasoning() -> Seq<char> {
    "Fallback classification - no strong keyword match"@
}

pub open spec fn matched_reasoning(matched: nat) -> Seq<char> {
    "Matched "@ + decimal_of(matched) + " keywords"@
}

/// Selects the occupations of one category.
pub open spec fn in_category(category: OccupationCategory) -> spec_fn(Occupation) -> bool {
    |o: Occupation| o.category == category
}

/// The occupation at a position is named exactly `name`.
pub open spec fn named(catalog: Seq<Occupation>, name: Seq<char>) -> spec_fn(int) -> bool {
    |i: int| catalog[i].name@ == name
}

/// How closely a catalog name `candidate` matches a query: exactly
/// (tier 0), equal once both are lowercased (tier 1), or one lowercased
/// name contained in the other (tier 2).
pub open spec fn name_matches(tier: int, query: Seq<char>, candidate: Seq<char>) -> bool {
    if tier == 0 {
        candidate == query
    } else if tier == 1 {
        lower_of(candidate) == lower_of(query)
    } else {
        is_substring(lower_of(candidate), lower_of(query)) || is_substring(
            lower_of(query),
            lower_of(candidate),
        )
    }
}

pub open spec fn matches_in_tier(catalog: Seq<Occupation>, query: Seq<char>, tier: int) -> spec_fn(
    int,
) -> bool {
    |i: int| name_matches(tier, query, catalog[i].name@)
}

/// Position of the fuzzy match of `query`: the first occupation in catalog
/// order that matches in the lowest tier where any does.
pub open spec fn fuzzy_position(catalog: Seq<Occupation>, query: Seq<char>) -> Option<int> {
    let n = catalog.len() as int;
    match first_where(matches_in_tier(catalog, query, 0), n) {
        Some(i) => Some(i),
        None => match first_where(matches_in_tier(catalog, query, 1), n) {
            Some(i) => Some(i),
            None => first_where(matches_in_tier(catalog, query, 2), n),
        },
    }
}

/// `r` is the catalog entry at position `pos`, or nothing.
pub open spec fn found_at(
    r: Option<&Occupation>,
    catalog: Seq<Occupation>,
    pos: Option<int>,
) -> bool {
    match pos {
        Some(i) => r matches Some(o) && *o == catalog[i],
        None => r is None,
    }
}

impl TaskClassifier {
    /// The catalog that the classifier draws from.
    pub closed spec fn catalog(&self) -> Seq<Occupation> {
        self.occupations@
    }

    /// The keyword index that it scores with.
    pub closed spec fn index(&self) -> Seq<IndexEntry> {
        self.keyword_index@
    }

    pub closed spec fn fallback_name(&self) -> Seq<char> {
        self.fallback_occupation@
    }

    pub closed spec fn fallback_hourly_wage(&self) -> u64 {
        self.fallback_wage
    }

    /// `r` names the occupation that `text` (an instruction, lowercased)
    /// selects, with its wage, category, confidence and reasoning: the best
    /// match when some keyword occurs, else the fallback.
    pub open spec fn is_classification_of(
        &self,
        r: ClassificationResult,
        text: Seq<char>,
    ) -> bool {
        match best_match(self.index(), text, self.catalog().len() as int) {
            Some(b) => {
                &&& r.occupation@ == self.catalog()[b].name@
                &&& r.hourly_wage == self.catalog()[b].hourly_wage
                &&& r.category == self.catalog()[b].category
                &&& r.confidence == confidence_of(score(self.index(), text, b))
                &&& r.reasoning@ == matched_reasoning(score(self.index(), text, b))
            },
            None => {
                &&& r.occupation@ == self.fallback_name()
                &&& r.hourly_wage == self.fallback_hourly_wage()
                &&& r.category == OccupationCategory::BusinessFinance
                &&& r.confidence == FALLBACK_CONFIDENCE
                &&& r.reasoning@ == fallback_reasoning()
            },
        }
    }

    /// Every occupation is usable, the index is the one built from the
    /// catalog, and the fallback wage is positive and bounded.
    pub closed spec fn wf(&self) -> bool {
        &&& forall|i: int|
            0 <= i < self.occupations@.len() ==> occupation_wf(#[trigger] self.occupations@[i])
        &&& self.keyword_index@ == index_of(self.occupations@)
        &&& forall|k: int|
            0 <= k < self.keyword_index@.len() ==> (#[trigger] self.keyword_index@[k]).occupation
                < self.occupations@.len()
        &&& 0 < self.fallback_wage <= MAX_HOURLY_WAGE
    }

    /// A classifier over the built-in catalog, whose fallback is "General
    /// and Operations Managers" at 64.00 an hour.
    pub fn new() -> (r: TaskClassifier)
        ensures
            r.wf(),
            is_reference_catalog(r.catalog()),
            r.index() == index_of(r.catalog()),
            r.fallback_name() == "General and Operations Managers"@,
            r.fallback_hourly_wage() == FALLBACK_WAGE,
    {
        let occupations = load_occupations();
        let keyword_index = Self::build_keyword_index(&occupations);
        proof {
            lemma_index_positions(occupations@);
        }
        TaskClassifier {
            occupations,
            keyword_index,
            fallback_occupation: String::from_str("General and Operations Managers"),
            fallback_wage: FALLBACK_WAGE,
        }
    }

    /// Classifies `instruction`: scores every occupation by the keywords of
    /// the index that occur in the lowercased instruction, takes the first
    /// best-scoring one (or the fallback when nothing scored), estimates the
    /// duration and caps the payment at duration times wage.
    pub fn classify(&self, instruction: &str) -> (r: ClassificationResult)
        requires
            self.wf(),
        ensures
            self.is_classification_of(r, lower_of(instruction@)),
            r.estimated_hours == hours_of(instruction@, lower_of(instruction@)),
            MIN_HOURS <= r.estimated_hours <= MAX_HOURS,
            r.max_payment == payment_of(r.estimated_hours as int, r.hourly_wage as int),
            r.confidence <= FULL_CONFIDENCE,
            0 < r.hourly_wage <= MAX_HOURLY_WAGE,
    {
        let lowered = lowercase(instruction);
        self.classify_lowered(instruction, lowered.as_str())
    }

    /// Classifies `instruction`, given `lowered`, its lowercased form:
    /// scores every occupation by the keywords of the index that occur in
    /// `lowered`, takes the first best-scoring one (or the fallback when
    /// nothing scored), estimates the duration and caps the payment at
    /// duration times wage.
    pub fn classify_lowered(&self, instruction: &str, lowered: &str) -> (r: ClassificationResult)
        requires
            self.wf(),
        ensures
            self.is_classification_of(r, lowered@),
            r.estimated_hours == hours_of(instruction@, lowered@),
            MIN_HOURS <= r.estimated_hours <= MAX_HOURS,
            r.max_payment == payment_of(r.estimated_hours as int, r.hourly_wage as int),
            r.confidence <= FULL_CONFIDENCE,
            0 < r.hourly_wage <= MAX_HOURLY_WAGE,
    {
        let ghost text = lowered@;
        let ghost index = self.keyword_index@;
        let n = self.occupations.len();
        let mut scores: Vec<usize> = Vec::new();
        while scores.len() < n
            invariant
                scores@.len() <= n,
                forall|j: int| 0 <= j < scores@.len() ==> scores@[j] == 0,
            decreases n - scores@.len(),
        {
            scores.push(0);
        }
        let mut t: usize = 0;
        while t < self.keyword_index.len()
            invariant
                self.wf(),
                n == self.occupations@.len(),
                index == self.keyword_index@,
                text == lowered@,
                t <= index.len(),
                scores@.len() == n,
                forall|j: int|
                    0 <= j < n ==> #[trigger] scores@[j] as int == score(
                        index.take(t as int),
                        text,
                        j,
                    ),
                forall|j: int| 0 <= j < n ==> #[trigger] scores@[j] <= t,
            decreases index.len() - t,
        {
            let entry = self.keyword_index[t];
            let ghost old_scores = scores@;
            let hit = contains(lowered, entry.keyword);
            if hit {
                let pos = entry.occupation;
                let bumped = scores[pos] + 1;
                scores.set(pos, bumped);
            }
            proof {
                let before = index.take(t as int);
                let after = index.take(t + 1);
                assert(after.drop_last() =~= before);
                assert(after.last() == entry);
                assert forall|j: int| 0 <= j < n implies #[trigger] scores@[j] as int == score(
                    after,
                    text,
                    j,
                ) by {
                    assert(old_scores[j] as int == score(before, text, j));
                    assert(hit == is_substring(entry.keyword@, text));
                    if hit && entry.occupation == j {
                        assert(scores@[j] == old_scores[j] + 1);
                    } else {
                        assert(scores@[j] == old_scores[j]);
                    }
                    assert(score(after, text, j) == score(before, text, j) + if entry.occupation
                        == j && is_substring(entry.keyword@, text) {
                        1nat
                    } else {
                        0nat
                    });
                }
            }
            t = t + 1;
        }
        assert(index.take(t as int) =~= index);

        let mut best: usize = 0;
        let mut best_score: usize = 0;
        let mut j: usize = 0;
        while j < n
            invariant
                j <= n,
                scores@.len() == n,
                forall|k: int| 0 <= k < n ==> #[trigger] scores@[k] as int == score(index, text, k),
                forall|k: int| 0 <= k < j ==> #[trigger] scores@[k] <= best_score,
                best_score > 0 ==> best < j && scores@[best as int] == best_score,
                best_score > 0 ==> forall|k: int|
                    0 <= k < best ==> #[trigger] scores@[k] < best_score,
            decreases n - j,
        {
            if scores[j] > best_score {
                best = j;
                best_score = scores[j];
            }
            j = j + 1;
        }
        let ghost p = is_top(index, text, n as int);
        let estimated_hours = Self::estimate_hours_lowered(instruction, lowered);
        if best_score == 0 {
            proof {
                assert forall|k: int| 0 <= k < n implies !#[trigger] p(k) by {
                    assert(scores@[k] == 0);
                }
                lemma_first_skip(p, 0, n as int, n as int);
            }
            let hourly_wage = self.fallback_wage;
            ClassificationResult {
                occupation: self.fallback_occupation.clone(),
                hourly_wage,
                estimated_hours,
                max_payment: payment(estimated_hours, hourly_wage),
                confidence: FALLBACK_CONFIDENCE,
                category: OccupationCategory::BusinessFinance,
                reasoning: String::from_str("Fallback classification - no strong keyword match"),
            }
        } else {
            proof {
                assert forall|k: int| 0 <= k < n implies #[trigger] score(index, text, k) <= score(
                    index,
                    text,
                    best as int,
                ) by {
                    assert(scores@[k] <= best_score);
                }
                assert(p(best as int));
                assert forall|k: int| 0 <= k < best implies !#[trigger] p(k) by {
                    assert(scores@[best as int] > scores@[k]);
                }
                lemma_first_skip(p, 0, best as int, n as int);
            }
            let occ = &self.occupations[best];
            let hourly_wage = occ.hourly_wage;
            let mut reasoning = String::from_str("Matched ");
            let count = decimal(best_score as u64);
            reasoning.append(count.as_str());
            reasoning.append(" keywords");
            ClassificationResult {
                occupation: occ.name.clone(),
                hourly_wage,
                estimated_hours,
                max_payment: payment(estimated_hours, hourly_wage),
                confidence: confidence(best_score),
                category: occ.category,
                reasoning,
            }
        }
    }

    /// Estimated duration of `instruction`, in thousandths of an hour.
    pub fn estimate_hours(instruction: &str) -> (r: u64)
        ensures
            r == hours_of(instruction@, lower_of(instruction@)),
            MIN_HOURS <= r <= MAX_HOURS,
    {
        let lowered = lowercase(instruction);
        Self::estimate_hours_lowered(instruction, lowered.as_str())
    }

    /// Estimated duration of `instruction`, in thousandths of an hour, given
    /// `lowered`, its lowercased form.
    pub fn estimate_hours_lowered(instruction: &str, lowered: &str) -> (r: u64)
        ensures
            r == hours_of(instruction@, lowered@),
            MIN_HOURS <= r <= MAX_HOURS,
    {
        let words = count_words(instruction);
        let complex = contains(lowered, "implement") || contains(instruction, "build")
            || contains(instruction, "create") || contains(instruction, "design") || contains(
            instruction,
            "develop",
        );
        let simple = contains(lowered, "fix") || contains(instruction, "update")
            || contains(instruction, "change") || contains(instruction, "review");
        let factor: u64 = if words < 10 {
            10
        } else if words > 40 {
            40
        } else {
            words as u64
        };
        let scaled: u64 = if complex {
            factor * 100
        } else if simple {
            factor * 25
        } else {
            factor * 50
        };
        assert(scaled == base_hours(instruction@, lowered@) * clamp(
            word_count(instruction@) as int,
            10,
            40,
        ) / 20);
        if scaled < MIN_HOURS {
            MIN_HOURS
        } else if scaled > MAX_HOURS {
            MAX_HOURS
        } else {
            scaled
        }
    }

    /// The whole catalog, in order.
    pub fn occupations(&self) -> (r: &[Occupation])
        ensures
            r@ == self.catalog(),
    {
        self.occupations.as_slice()
    }

    /// The occupations of `category`, in catalog order.
    pub fn occupations_by_category(&self, category: OccupationCategory) -> (r: Vec<&Occupation>)
        ensures
            r@.map_values(|o: &Occupation| *o) == self.catalog().filter(in_category(category)),
    {
        broadcast use Seq::lemma_filter_push;

        let mut found: Vec<&Occupation> = Vec::new();
        let mut i: usize = 0;
        while i < self.occupations.len()
            invariant
                i <= self.occupations@.len(),
                found@.map_values(|o: &Occupation| *o) == self.occupations@.take(i as int).filter(
                    in_category(category),
                ),
            decreases self.occupations@.len() - i,
        {
            let occ = &self.occupations[i];
            let ghost before = found@.map_values(|o: &Occupation| *o);
            let ghost prefix = self.occupations@.take(i as int);
            proof {
                assert(self.occupations@.take(i + 1) =~= prefix.push(*occ));
                prefix.lemma_filter_push(*occ, in_category(category));
            }
            if occ.category == category {
                found.push(occ);
                assert(found@.map_values(|o: &Occupation| *o) =~= before.push(*occ));
            }
            i = i + 1;
        }
        assert(self.occupations@.take(i as int) =~= self.occupations@);
        found
    }

    /// Name of the occupation used when no keyword matches.
    pub fn fallback_occupation(&self) -> (r: &str)
        ensures
            r@ == self.fallback_name(),
    {
        self.fallback_occupation.as_str()
    }

    /// Hourly wage, in cents, used when no keyword matches.
    pub fn fallback_wage(&self) -> (r: u64)
        ensures
            r == self.fallback_hourly_wage(),
    {
        self.fallback_wage
    }

    /// The first occupation named exactly `name`, if any.
    pub fn get_occupation(&self, name: &str) -> (r: Option<&Occupation>)
        ensures
            found_at(
                r,
                self.catalog(),
                first_where(named(self.catalog(), name@), self.catalog().len() as int),
            ),
    {
        let ghost p = named(self.occupations@, name@);
        let n = self.occupations.len();
        let mut i: usize = 0;
        while i < n
            invariant
                n == self.occupations@.len(),
                i <= n,
                p == named(self.occupations@, name@),
                forall|j: int| 0 <= j < i ==> !#[trigger] p(j),
            decreases n - i,
        {
            if str_eq(self.occupations[i].name.as_str(), name) {
                proof {
                    lemma_first_skip(p, 0, i as int, n as int);
                }
                return Some(&self.occupations[i]);
            }
            i = i + 1;
        }
        proof {
            lemma_first_skip(p, 0, n as int, n as int);
        }
        None
    }

    /// The first occupation whose name matches `name` in `tier` (see
    /// `name_matches`).
    fn find_in_tier(&self, name: &str, lower: &String, tier: u8) -> (r: Option<usize>)
        requires
            lower@ == lower_of(name@),
            tier <= 2,
        ensures
            r matches Some(i) ==> i < self.occupations@.len(),
            first_where(
                matches_in_tier(self.occupations@, name@, tier as int),
                self.occupations@.len() as int,
            ) == match r {
                Some(i) => Some(i as int),
                None => None,
            },
    {
        let ghost p = matches_in_tier(self.occupations@, name@, tier as int);
        let n = self.occupations.len();
        let mut i: usize = 0;
        while i < n
            invariant
                n == self.occupations@.len(),
                i <= n,
                lower@ == lower_of(name@),
                tier <= 2,
                p == matches_in_tier(self.occupations@, name@, tier as int),
                forall|j: int| 0 <= j < i ==> !#[trigger] p(j),
            decreases n - i,
        {
            let candidate = &self.occupations[i].name;
            let hit = if tier == 0 {
                str_eq(candidate.as_str(), name)
            } else {
                let candidate_lower = lowercase(candidate.as_str());
                if tier == 1 {
                    str_eq(candidate_lower.as_str(), lower.as_str())
                } else {
                    contains(lower.as_str(), candidate_lower.as_str()) || contains(
                        candidate_lower.as_str(),
                        lower.as_str(),
                    )
                }
            };
            if hit {
                proof {
                    lemma_first_skip(p, 0, i as int, n as int);
                }
                return Some(i);
            }
            i = i + 1;
        }
        proof {
            lemma_first_skip(p, 0, n as int, n as int);
        }
        None
    }

    /// Finds an occupation by a loosely written name: an exact match first,
    /// then a case-insensitive one, then one where either lowercased name
    /// contains the other; within a tier the first in catalog order wins.
    pub fn fuzzy_match(&self, name: &str) -> (r: Option<&Occupation>)
        ensures
            found_at(r, self.catalog(), fuzzy_position(self.catalog(), name@)),
    {
        let lower = lowercase(name);
        let mut tier: u8 = 0;
        while tier <= 2
            invariant
                lower@ == lower_of(name@),
                tier <= 3,
                forall|t: int| 0 <= t < tier ==> first_where(
                    #[trigger] matches_in_tier(self.occupations@, name@, t),
                    self.occupations@.len() as int,
                ) is None,
            decreases 3 - tier,
        {
            match self.find_in_tier(name, &lower, tier) {
                Some(i) => {
                    return Some(&self.occupations[i]);
                },
                None => {},
            }
            tier = tier + 1;
        }
        None
    }

    /// The keyword index of `occupations`.
    fn build_keyword_index(occupations: &Vec<Occupation>) -> (r: Vec<IndexEntry>)
        ensures
            r@ == index_of(occupations@),
    {
        let mut index: Vec<IndexEntry> = Vec::new();
        let mut i: usize = 0;
        while i < occupations.len()
            invariant
                i <= occupations@.len(),
                index@ == index_of(occupations@.take(i as int)),
            decreases occupations@.len() - i,
        {
            let keywords = &occupations[i].keywords;
            let mut j: usize = 0;
            while j < keywords.len()
                invariant
                    i < occupations@.len(),
                    keywords@ == occupations@[i as int].keywords@,
                    j <= keywords@.len(),
                    index@ == index_of(occupations@.take(i as int)) + entries_of(
                        keywords@.take(j as int),
                        i as int,
                    ),
                decreases keywords@.len() - j,
            {
                index.push(IndexEntry { keyword: keywords[j], occupation: i });
                proof {
                    assert(entries_of(keywords@.take(j + 1), i as int) =~= entries_of(
                        keywords@.take(j as int),
                        i as int,
                    ).push(IndexEntry { keyword: keywords@[j as int], occupation: i }));
                }
                j = j + 1;
            }
            proof {
                assert(keywords@.take(j as int) =~= keywords@);
                assert(occupations@.take(i + 1).drop_last() =~= occupations@.take(i as int));
            }
            i = i + 1;
        }
        assert(occupations@.take(i as int) =~= occupations@);
        index
    }
}

impl Default for TaskClassifier {
    fn default() -> (r: TaskClassifier)
        ensures
            r.wf(),
            is_reference_catalog(r.catalog()),
            r.index() == index_of(r.catalog()),
            r.fallback_name() == "General and Operations Managers"@,
            r.fallback_hourly_wage() == FALLBACK_WAGE,
    {
        TaskClassifier::new()
    }
}

/// `hours` thousandths of an hour at `wage` cents an hour, in cents.
fn payment(hours: u64, wage: u64) -> (r: u64)
    requires
        hours <= MAX_HOURS,
        wage <= MAX_HOURLY_WAGE,
    ensures
        r == payment_of(hours as int, wage as int),
{
    assert(hours * wage <= MAX_HOURS * MAX_HOURLY_WAGE) by (nonlinear_arith)
        requires
            hours <= MAX_HOURS,
            wage <= MAX_HOURLY_WAGE,
    ;
    (hours * wage + 500) / 1000
}

/// Confidence, in thousandths, of a match on `matched` keywords.
fn confidence(matched: usize) -> (r: u64)
    ensures
        r == confidence_of(matched as nat),
        r <= FULL_CONFIDENCE,
{
    if matched >= 3 {
        FULL_CONFIDENCE
    } else {
        let m: u64 = matched as u64;
        (2000 * m + 3) / 6
    }
}

/// What a valid classifier guarantees: its index is the one built from its
/// catalog, every occupation has a positive, bounded wage and at least one
/// keyword, and the fallback wage is positive and bounded.
pub proof fn lemma_wf_facts(c: TaskClassifier)
    requires
        c.wf(),
    ensures
        c.index() == index_of(c.catalog()),
        forall|i: int| 0 <= i < c.catalog().len() ==> occupation_wf(#[trigger] c.catalog()[i]),
        0 < c.fallback_hourly_wage() <= MAX_HOURLY_WAGE,
{
}

/// Every keyword in a catalog's index is a keyword of some occupation of
/// the catalog.
pub proof fn lemma_index_keywords(occs: Seq<Occupation>, k: int)
    requires
        0 <= k < index_of(occs).len(),
    ensures
        exists|i: int, m: int|
            0 <= i < occs.len() && 0 <= m < occs[i].keywords@.len()
                && #[trigger] occs[i].keywords@[m] == index_of(occs)[k].keyword,
    decreases occs.len(),
{
    let prev = index_of(occs.drop_last());
    let i = occs.len() - 1;
    if k < prev.len() {
        lemma_index_keywords(occs.drop_last(), k);
        let (i0, m0) = choose|i0: int, m0: int|
            0 <= i0 < occs.drop_last().len() && 0 <= m0 < occs.drop_last()[i0].keywords@.len()
                && #[trigger] occs.drop_last()[i0].keywords@[m0] == prev[k].keyword;
        assert(occs[i0] == occs.drop_last()[i0]);
        assert(occs[i0].keywords@[m0] == index_of(occs)[k].keyword);
    } else {
        let m = k - prev.len();
        assert(index_of(occs)[k] == entries_of(occs[i].keywords@, i)[m]);
        assert(occs[i].keywords@[m] == index_of(occs)[k].keyword);
    }
}

/// An instruction in whose lowercased text no keyword of any catalog
/// occupation occurs is classified as the fallback occupation, at the
/// fallback wage, with a confidence of exactly 0.3.
pub proof fn lemma_no_match_falls_back(
    classifier: TaskClassifier,
    r: ClassificationResult,
    text: Seq<char>,
)
    requires
        classifier.wf(),
        forall|i: int, m: int|
            0 <= i < classifier.catalog().len() && 0 <= m < classifier.catalog()[i].keywords@.len()
                ==> !is_substring(#[trigger] classifier.catalog()[i].keywords@[m]@, text),
        classifier.is_classification_of(r, text),
    ensures
        r.occupation@ == classifier.fallback_name(),
        r.hourly_wage == classifier.fallback_hourly_wage(),
        r.confidence == FALLBACK_CONFIDENCE,
        r.category == OccupationCategory::BusinessFinance,
        r.reasoning@ == fallback_reasoning(),
{
    let index = classifier.index();
    let catalog = classifier.catalog();
    let n = catalog.len() as int;
    assert forall|k: int| 0 <= k < index.len() implies !is_substring(
        #[trigger] index[k].keyword@,
        text,
    ) by {
        lemma_index_keywords(catalog, k);
        let (i, m) = choose|i: int, m: int|
            0 <= i < catalog.len() && 0 <= m < catalog[i].keywords@.len()
                && #[trigger] catalog[i].keywords@[m] == index_of(catalog)[k].keyword;
        assert(catalog[i].keywords@[m]@ == index[k].keyword@);
    }
    let p = is_top(index, text, n);
    assert forall|j: int| 0 <= j < n implies !#[trigger] p(j) by {
        lemma_no_hits_score_zero(index, text, j);
    }
    lemma_first_skip(p, 0, n, n);
}

proof fn lemma_no_hits_score_zero(index: Seq<IndexEntry>, text: Seq<char>, pos: int)
    requires
        forall|k: int| 0 <= k < index.len() ==> !is_substring(#[trigger] index[k].keyword@, text),
    ensures
        score(index, text, pos) == 0,
    decreases index.len(),
{
    if index.len() > 0 {
        let rest = index.drop_last();
        assert forall|k: int| 0 <= k < rest.len() implies !is_substring(
            #[trigger] rest[k].keyword@,
            text,
        ) by {
            assert(rest[k] == index[k]);
        }
        lemma_no_hits_score_zero(rest, text, pos);
        assert(!is_substring(index[index.len() - 1].keyword@, text));
    }
}

/// Every entry of a catalog's index points at one of its occupations.
proof fn lemma_index_positions(occs: Seq<Occupation>)
    requires
        occs.len() <= usize::MAX,
    ensures
        forall|k: int|
            0 <= k < index_of(occs).len() ==> (#[trigger] index_of(occs)[k]).occupation
                < occs.len(),
    decreases occs.len(),
{
    if occs.len() > 0 {
        let prev = index_of(occs.drop_last());
        let last = entries_of(occs.last().keywords@, occs.len() - 1);
        lemma_index_positions(occs.drop_last());
        assert forall|k: int| 0 <= k < index_of(occs).len() implies (#[trigger] index_of(
            occs,
        )[k]).occupation < occs.len() by {
            if k >= prev.len() {
                assert(index_of(occs)[k] == last[k - prev.len()]);
            } else {
                assert(index_of(occs)[k] == prev[k]);
            }
        }
    }
}

} // verus!

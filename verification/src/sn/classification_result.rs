//! Results of a sound classification request.

use vstd::prelude::*;

use crate::cm::TimeRange;

verus! {

/// One label with the classifier's confidence ranking; labels come
/// ordered best first, so the rank stands in for the real-valued
/// confidence score.
pub struct Classification {
    ident: String,
    rank: usize,
}

impl Classification {
    /// The label's identifier.
    pub closed spec fn ident_view(self) -> Seq<char> {
        self.ident@
    }

    /// The label's rank among the result's classifications, best first.
    pub closed spec fn rank_spec(self) -> nat {
        self.rank as nat
    }

    /// A classification with the given label and rank.
    pub fn new(ident: String, rank: usize) -> (c: Classification)
        ensures
            c.ident_view() == ident@,
            c.rank_spec() == rank,
    {
        Classification { ident, rank }
    }

    /// The label's identifier.
    pub fn id(&self) -> (r: &String)
        ensures
            r@ == self.ident_view(),
    {
        &self.ident
    }

    /// The label's rank, best first.
    pub fn rank(&self) -> (r: usize)
        ensures
            (r as nat) == self.rank_spec(),
    {
        self.rank
    }
}

/// Index of the first classification carrying the given label, or `-1`.
pub open spec fn find_classification(cs: Seq<Classification>, ident: Seq<char>) -> int
    decreases cs.len(),
{
    if cs.len() == 0 {
        -1
    } else if cs.first().ident_view() == ident {
        0
    } else {
        let r = find_classification(cs.drop_first(), ident);
        if r < 0 {
            -1
        } else {
            r + 1
        }
    }
}

/// What `find_classification` promises: `-1` exactly when no label
/// matches, otherwise the least matching index.
proof fn lemma_find_classification(cs: Seq<Classification>, ident: Seq<char>)
    ensures
        -1 <= find_classification(cs, ident) < cs.len(),
        find_classification(cs, ident) >= 0 ==> {
            &&& cs[find_classification(cs, ident)].ident_view() == ident
            &&& forall|i: int|
                0 <= i < find_classification(cs, ident) ==> (#[trigger] cs[i]).ident_view()
                    != ident
        },
        find_classification(cs, ident) == -1 ==> forall|i: int|
            0 <= i < cs.len() ==> (#[trigger] cs[i]).ident_view() != ident,
    decreases cs.len(),
{
    if cs.len() > 0 {
        lemma_find_classification(cs.drop_first(), ident);
        assert forall|i: int| 1 <= i < cs.len() implies cs.drop_first()[i - 1] == cs[i] by {}
    }
}

/// The result of one classification request over one time range.
pub struct ClassificationResult {
    classifications: Vec<Classification>,
    time_range: TimeRange,
}

impl ClassificationResult {
    /// The ranked classifications, best first.
    pub closed spec fn classifications_view(self) -> Seq<Classification> {
        self.classifications@
    }

    /// The analyzed time range.
    pub closed spec fn time_range_spec(self) -> TimeRange {
        self.time_range
    }

    /// A result over the given time range with the given ranked labels.
    pub fn new(classifications: Vec<Classification>, time_range: TimeRange) -> (r:
        ClassificationResult)
        ensures
            r.classifications_view() == classifications@,
            r.time_range_spec() == time_range,
    {
        ClassificationResult { classifications, time_range }
    }

    /// The ranked classifications, best first.
    pub fn classifications(&self) -> (r: &Vec<Classification>)
        ensures
            r@ == self.classifications_view(),
    {
        &self.classifications
    }

    /// The analyzed time range.
    pub fn time_range(&self) -> (r: TimeRange)
        ensures
            r == self.time_range_spec(),
    {
        self.time_range
    }

    /// The first classification carrying the given label, if any.
    pub fn classification_for_id(&self, id: &String) -> (r: Option<&Classification>)
        ensures
            ({
                let i = find_classification(self.classifications_view(), id@);
                match r {
                    Some(c) => i >= 0 && *c == self.classifications_view()[i],
                    None => i == -1,
                }
            }),
    {
        proof {
            lemma_find_classification(self.classifications_view(), id@);
        }
        let n = self.classifications.len();
        let mut i: usize = 0;
        while i < n
            invariant
                n == self.classifications_view().len(),
                i <= n,
                forall|j: int|
                    0 <= j < i ==> (#[trigger] self.classifications_view()[j]).ident_view() != id@,
                -1 <= find_classification(self.classifications_view(), id@) < n,
                find_classification(self.classifications_view(), id@) >= 0 ==> {
                    &&& self.classifications_view()[find_classification(
                        self.classifications_view(),
                        id@,
                    )].ident_view() == id@
                    &&& forall|j: int|
                        0 <= j < find_classification(self.classifications_view(), id@) ==> (
                        #[trigger] self.classifications_view()[j]).ident_view() != id@
                },
                find_classification(self.classifications_view(), id@) == -1 ==> forall|j: int|
                    0 <= j < n ==> (#[trigger] self.classifications_view()[j]).ident_view() != id@,
            decreases n - i,
        {
            let c = &self.classifications[i];
            if c.ident == *id {
                return Some(c);
            }
            i = i + 1;
        }
        None
    }
}

} // verus!

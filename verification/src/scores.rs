//! What the scoring of a classifier returns: one score per class, or one
//! average over all classes.

use vstd::prelude::*;

verus! {

/// Precision, recall, F-beta score and support of each class, all in one
/// order of the classes. The four vectors are always of one length.
pub struct PerClassScore<F> {
    precision: Vec<F>,
    recall: Vec<F>,
    fscore: Vec<F>,
    support: Vec<u64>,
}

/// The values that a `PerClassScore` holds.
pub struct PerClassScoreView<F> {
    pub precision: Seq<F>,
    pub recall: Seq<F>,
    pub fscore: Seq<F>,
    pub support: Seq<u64>,
}

impl<F> View for PerClassScore<F> {
    type V = PerClassScoreView<F>;

    closed spec fn view(&self) -> PerClassScoreView<F> {
        PerClassScoreView {
            precision: self.precision@,
            recall: self.recall@,
            fscore: self.fscore@,
            support: self.support@,
        }
    }
}

impl<F> PerClassScore<F> {
    /// There is one entry per class in each of the four vectors.
    #[verifier::type_invariant]
    closed spec fn well_formed(&self) -> bool {
        &&& self.precision@.len() == self.recall@.len()
        &&& self.precision@.len() == self.fscore@.len()
        &&& self.precision@.len() == self.support@.len()
    }

    /// The scores of the classes, from four vectors of one length.
    pub(crate) fn of_one_length(
        precision: Vec<F>,
        recall: Vec<F>,
        fscore: Vec<F>,
        support: Vec<u64>,
    ) -> (s: Self)
        requires
            precision@.len() == recall@.len(),
            precision@.len() == fscore@.len(),
            precision@.len() == support@.len(),
        ensures
            s@ == (PerClassScoreView {
                precision: precision@,
                recall: recall@,
                fscore: fscore@,
                support: support@,
            }),
    {
        PerClassScore { precision, recall, fscore, support }
    }

    /// The scores of the classes, where the four vectors are of one length.
    pub fn new(precision: Vec<F>, recall: Vec<F>, fscore: Vec<F>, support: Vec<u64>) -> (s: Option<
        Self,
    >)
        ensures
            s is Some <==> precision@.len() == recall@.len() && precision@.len() == fscore@.len()
                && precision@.len() == support@.len(),
            s matches Some(scores) ==> scores@ == (PerClassScoreView {
                precision: precision@,
                recall: recall@,
                fscore: fscore@,
                support: support@,
            }),
    {
        if precision.len() == recall.len() && precision.len() == fscore.len() && precision.len()
            == support.len() {
            Some(PerClassScore::of_one_length(precision, recall, fscore, support))
        } else {
            None
        }
    }

    /// The number of classes.
    pub fn classes(&self) -> (n: usize)
        ensures
            n == self@.precision.len(),
            n == self@.recall.len(),
            n == self@.fscore.len(),
            n == self@.support.len(),
    {
        proof {
            use_type_invariant(self);
        }
        self.precision.len()
    }

    /// The precision of each class.
    pub fn precision(&self) -> (v: &Vec<F>)
        ensures
            v@ == self@.precision,
    {
        &self.precision
    }

    /// The recall of each class.
    pub fn recall(&self) -> (v: &Vec<F>)
        ensures
            v@ == self@.recall,
    {
        &self.recall
    }

    /// The F-beta score of each class.
    pub fn fscore(&self) -> (v: &Vec<F>)
        ensures
            v@ == self@.fscore,
    {
        &self.fscore
    }

    /// The support of each class: the number of samples that are of the class.
    pub fn support(&self) -> (v: &Vec<u64>)
        ensures
            v@ == self@.support,
    {
        &self.support
    }
}

/// Precision, recall and F-beta score averaged over the classes, and the
/// total support.
pub struct AverageScore<F> {
    pub precision: F,
    pub recall: F,
    pub fscore: F,
    pub support: u128,
}

/// The scores of a classifier: per class, or averaged.
pub enum Scores<F> {
    PerClassScore(PerClassScore<F>),
    AverageScore(AverageScore<F>),
}

/// The values that a `Scores` holds.
pub enum ScoresView<F> {
    PerClassScore(PerClassScoreView<F>),
    AverageScore(AverageScore<F>),
}

impl<F> View for Scores<F> {
    type V = ScoresView<F>;

    open spec fn view(&self) -> ScoresView<F> {
        match self {
            Scores::PerClassScore(scores) => ScoresView::PerClassScore(scores@),
            Scores::AverageScore(scores) => ScoresView::AverageScore(*scores),
        }
    }
}

} // verus!

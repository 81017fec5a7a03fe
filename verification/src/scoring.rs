//! Precision, recall, F-beta score and support of a classifier, per class or
//! averaged.

use vstd::prelude::*;
use crate::aggregate::{
    beta_spec, copy_of, fbeta_scores, fbeta_scores_meet_zero, fbeta_scores_spec, fbeta_spec,
    fold_sum, hit_rate_spec, hit_rates, hit_rates_meet_zero, hit_rates_spec, macro_average,
    mean_spec, single, sum, sum_support, total_support, weighted_average, weighted_mean_spec,
};
use crate::error::DivideError;
use crate::options::{Average, DivisionByZeroStrategy, Metric};
use crate::scalar::Float;
use crate::scores::{AverageScore, PerClassScore, PerClassScoreView, Scores, ScoresView};

verus! {

/// What is counted for each class of a classifier, all in one order of the
/// classes: the samples rightly predicted to be of the class, those wrongly
/// predicted to be of it, those of the class that were predicted to be of
/// another, and the support, the number of samples that are of the class.
pub struct ClassCounts<F> {
    pub true_positives: Vec<F>,
    pub false_positives: Vec<F>,
    pub false_negatives: Vec<F>,
    pub support: Vec<u64>,
}

/// The values that a `ClassCounts` holds.
pub struct ClassCountsView<F> {
    pub true_positives: Seq<F>,
    pub false_positives: Seq<F>,
    pub false_negatives: Seq<F>,
    pub support: Seq<u64>,
}

impl<F> View for ClassCounts<F> {
    type V = ClassCountsView<F>;

    open spec fn view(&self) -> ClassCountsView<F> {
        ClassCountsView {
            true_positives: self.true_positives@,
            false_positives: self.false_positives@,
            false_negatives: self.false_negatives@,
            support: self.support@,
        }
    }
}

impl<F: Float> ClassCountsView<F> {
    /// Whether there is one count of each kind for each class.
    pub open spec fn one_length(self) -> bool {
        &&& self.true_positives.len() == self.false_positives.len()
        &&& self.true_positives.len() == self.false_negatives.len()
        &&& self.true_positives.len() == self.support.len()
    }

    /// The counts summed over the classes, as the counts of a single class.
    pub open spec fn pooled(self) -> ClassCountsView<F> {
        ClassCountsView {
            true_positives: seq![fold_sum(self.true_positives)],
            false_positives: seq![fold_sum(self.false_positives)],
            false_negatives: seq![fold_sum(self.false_negatives)],
            support: self.support,
        }
    }

    /// The precision of each class: its true positives over its true and
    /// false positives.
    pub open spec fn precision(self) -> Seq<F> {
        hit_rates_spec(self.true_positives, self.false_positives)
    }

    /// The recall of each class: its true positives over its true positives
    /// and false negatives.
    pub open spec fn recall(self) -> Seq<F> {
        hit_rates_spec(self.true_positives, self.false_negatives)
    }

    /// The F-beta score of each class, from its precision and recall.
    pub open spec fn fscore(self, beta: F) -> Seq<F> {
        fbeta_scores_spec(self.precision(), self.recall(), beta)
    }

    /// Whether the scoring of the classes one by one meets a zero
    /// denominator: in a precision, in a recall or in an F-beta score.
    pub open spec fn meets_zero(self, beta: F) -> bool {
        ||| hit_rates_meet_zero(self.true_positives, self.false_positives)
        ||| hit_rates_meet_zero(self.true_positives, self.false_negatives)
        ||| fbeta_scores_meet_zero(self.precision(), self.recall(), beta)
    }
}

/// The scores that the counts of the classes give under a way of averaging.
///
/// Without averaging they are the precision, recall and F-beta score of each
/// class, beside its support. The micro average scores the counts summed over
/// the classes. The macro average is the unweighted mean of the scores of the
/// classes, the weighted average their mean weighted by support. Every
/// average comes with the total support.
pub open spec fn scores_spec<F: Float>(
    counts: ClassCountsView<F>,
    metric: Metric,
    average: Average,
) -> ScoresView<F> {
    let beta = beta_spec::<F>(metric);
    let precision = counts.precision();
    let recall = counts.recall();
    let fscore = counts.fscore(beta);
    let support = total_support(counts.support) as u128;
    match average {
        Average::PerClass => ScoresView::PerClassScore(
            PerClassScoreView { precision, recall, fscore, support: counts.support },
        ),
        Average::Micro => {
            let pooled = counts.pooled();
            ScoresView::AverageScore(
                AverageScore {
                    precision: pooled.precision()[0],
                    recall: pooled.recall()[0],
                    fscore: pooled.fscore(beta)[0],
                    support,
                },
            )
        },
        Average::Macro => ScoresView::AverageScore(
            AverageScore {
                precision: mean_spec(precision),
                recall: mean_spec(recall),
                fscore: mean_spec(fscore),
                support,
            },
        ),
        Average::Weighted => ScoresView::AverageScore(
            AverageScore {
                precision: weighted_mean_spec(precision, counts.support),
                recall: weighted_mean_spec(recall, counts.support),
                fscore: weighted_mean_spec(fscore, counts.support),
                support,
            },
        ),
    }
}

/// Whether the scoring meets a zero denominator under a way of averaging.
///
/// The micro average scores the summed counts only. The macro average scores
/// each class and divides by the number of classes, the weighted average
/// scores each class and divides by the total support.
pub open spec fn scores_meet_zero<F: Float>(
    counts: ClassCountsView<F>,
    metric: Metric,
    average: Average,
) -> bool {
    let beta = beta_spec::<F>(metric);
    match average {
        Average::PerClass => counts.meets_zero(beta),
        Average::Micro => counts.pooled().meets_zero(beta),
        Average::Macro => counts.meets_zero(beta) || counts.true_positives.len() == 0,
        Average::Weighted => counts.meets_zero(beta) || total_support(counts.support) == 0,
    }
}

/// Precision, recall and F-beta score of each class.
fn class_scores<F: Float>(
    true_positives: &Vec<F>,
    false_positives: &Vec<F>,
    false_negatives: &Vec<F>,
    metric: Metric,
    parallel: bool,
    zero_division: DivisionByZeroStrategy,
) -> (r: Result<(Vec<F>, Vec<F>, Vec<F>), DivideError>)
    requires
        true_positives@.len() == false_positives@.len(),
        true_positives@.len() == false_negatives@.len(),
    ensures
        r is Err ==> r matches Err(DivideError::DivisionByZero(_)),
        r is Err <==> zero_division == DivisionByZeroStrategy::ReturnError && ({
            ||| hit_rates_meet_zero(true_positives@, false_positives@)
            ||| hit_rates_meet_zero(true_positives@, false_negatives@)
            ||| fbeta_scores_meet_zero(
                hit_rates_spec(true_positives@, false_positives@),
                hit_rates_spec(true_positives@, false_negatives@),
                beta_spec::<F>(metric),
            )
        }),
        r matches Ok((precision, recall, fscore)) ==> {
            &&& precision@ == hit_rates_spec(true_positives@, false_positives@)
            &&& recall@ == hit_rates_spec(true_positives@, false_negatives@)
            &&& fscore@ == fbeta_scores_spec(precision@, recall@, beta_spec::<F>(metric))
        },
{
    let precision = hit_rates(true_positives, false_positives, parallel, zero_division)?;
    let recall = hit_rates(true_positives, false_negatives, parallel, zero_division)?;
    let fscore = fbeta_scores(&precision, &recall, metric, parallel, zero_division)?;
    Ok((precision, recall, fscore))
}

/// The scores of each class, not averaged.
fn per_class_scores<F: Float>(
    counts: &ClassCounts<F>,
    metric: Metric,
    parallel: bool,
    zero_division: DivisionByZeroStrategy,
) -> (r: Result<Scores<F>, DivideError>)
    requires
        counts@.one_length(),
    ensures
        r is Err ==> r matches Err(DivideError::DivisionByZero(_)),
        r is Err <==> zero_division == DivisionByZeroStrategy::ReturnError && scores_meet_zero(
            counts@,
            metric,
            Average::PerClass,
        ),
        r matches Ok(scores) ==> scores@ == scores_spec(counts@, metric, Average::PerClass),
{
    let (precision, recall, fscore) = class_scores(
        &counts.true_positives,
        &counts.false_positives,
        &counts.false_negatives,
        metric,
        parallel,
        zero_division,
    )?;
    Ok(
        Scores::PerClassScore(
            PerClassScore::of_one_length(precision, recall, fscore, copy_of(&counts.support)),
        ),
    )
}

/// The micro average: the scores of the counts summed over the classes.
fn micro_scores<F: Float>(
    counts: &ClassCounts<F>,
    metric: Metric,
    parallel: bool,
    zero_division: DivisionByZeroStrategy,
) -> (r: Result<Scores<F>, DivideError>)
    ensures
        r is Err ==> r matches Err(DivideError::DivisionByZero(_)),
        r is Err <==> zero_division == DivisionByZeroStrategy::ReturnError && scores_meet_zero(
            counts@,
            metric,
            Average::Micro,
        ),
        r matches Ok(scores) ==> scores@ == scores_spec(counts@, metric, Average::Micro),
{
    let hits = single(sum(&counts.true_positives));
    let false_hits = single(sum(&counts.false_positives));
    let misses = single(sum(&counts.false_negatives));
    let (precision, recall, fscore) = class_scores(
        &hits,
        &false_hits,
        &misses,
        metric,
        parallel,
        zero_division,
    )?;
    Ok(
        Scores::AverageScore(
            AverageScore {
                precision: precision[0],
                recall: recall[0],
                fscore: fscore[0],
                support: sum_support(&counts.support),
            },
        ),
    )
}

/// The macro average: the unweighted means of the scores of the classes.
fn macro_scores<F: Float>(
    counts: &ClassCounts<F>,
    metric: Metric,
    parallel: bool,
    zero_division: DivisionByZeroStrategy,
) -> (r: Result<Scores<F>, DivideError>)
    requires
        counts@.one_length(),
    ensures
        r is Err ==> r matches Err(DivideError::DivisionByZero(_)),
        r is Err <==> zero_division == DivisionByZeroStrategy::ReturnError && scores_meet_zero(
            counts@,
            metric,
            Average::Macro,
        ),
        r matches Ok(scores) ==> scores@ == scores_spec(counts@, metric, Average::Macro),
{
    let (precision, recall, fscore) = class_scores(
        &counts.true_positives,
        &counts.false_positives,
        &counts.false_negatives,
        metric,
        parallel,
        zero_division,
    )?;
    let mean_precision = match macro_average(&precision, parallel, zero_division) {
        Ok(mean) => mean,
        Err(e) => {
            return Err(DivideError::DivisionByZero(e));
        },
    };
    let mean_recall = match macro_average(&recall, parallel, zero_division) {
        Ok(mean) => mean,
        Err(e) => {
            return Err(DivideError::DivisionByZero(e));
        },
    };
    let mean_fscore = match macro_average(&fscore, parallel, zero_division) {
        Ok(mean) => mean,
        Err(e) => {
            return Err(DivideError::DivisionByZero(e));
        },
    };
    Ok(
        Scores::AverageScore(
            AverageScore {
                precision: mean_precision,
                recall: mean_recall,
                fscore: mean_fscore,
                support: sum_support(&counts.support),
            },
        ),
    )
}

/// The weighted average: the means of the scores of the classes, each
/// weighted by the support of its class.
fn weighted_scores<F: Float>(
    counts: &ClassCounts<F>,
    metric: Metric,
    parallel: bool,
    zero_division: DivisionByZeroStrategy,
) -> (r: Result<Scores<F>, DivideError>)
    requires
        counts@.one_length(),
    ensures
        r is Err ==> r matches Err(DivideError::DivisionByZero(_)),
        r is Err <==> zero_division == DivisionByZeroStrategy::ReturnError && scores_meet_zero(
            counts@,
            metric,
            Average::Weighted,
        ),
        r matches Ok(scores) ==> scores@ == scores_spec(counts@, metric, Average::Weighted),
{
    let (precision, recall, fscore) = class_scores(
        &counts.true_positives,
        &counts.false_positives,
        &counts.false_negatives,
        metric,
        parallel,
        zero_division,
    )?;
    let support = &counts.support;
    Ok(
        Scores::AverageScore(
            AverageScore {
                precision: weighted_average(&precision, support, parallel, zero_division)?,
                recall: weighted_average(&recall, support, parallel, zero_division)?,
                fscore: weighted_average(&fscore, support, parallel, zero_division)?,
                support: sum_support(support),
            },
        ),
    )
}

/// Precision, recall, F-beta score and support of a classifier, from the
/// counts of each class.
///
/// Per class, the precision is the true positives over the true and false
/// positives, the recall is the true positives over the true positives and
/// false negatives, and the F-beta score is
/// (1 + beta^2) * precision * recall / (beta^2 * precision + recall), with the
/// beta that goes with `metric`. `average` says whether these come back as they
/// are or averaged. Every division treats a zero denominator as
/// `zero_division` says: the quotient is zero, or the call fails.
///
/// Counts that are not of one length are refused before anything is computed.
pub fn precision_recall_fscore_support<F: Float>(
    counts: &ClassCounts<F>,
    metric: Metric,
    average: Average,
    parallel: bool,
    zero_division: DivisionByZeroStrategy,
) -> (r: Result<Scores<F>, DivideError>)
    ensures
        r matches Err(DivideError::ShapeMismatch) <==> !counts@.one_length(),
        r matches Err(DivideError::DivisionByZero(_)) <==> counts@.one_length() && zero_division
            == DivisionByZeroStrategy::ReturnError && scores_meet_zero(counts@, metric, average),
        r matches Ok(scores) ==> scores@ == scores_spec(counts@, metric, average),
{
    let classes: usize = counts.true_positives.len();
    if counts.false_positives.len() != classes || counts.false_negatives.len() != classes
        || counts.support.len() != classes {
        return Err(DivideError::ShapeMismatch);
    }
    match average {
        Average::PerClass => per_class_scores(counts, metric, parallel, zero_division),
        Average::Micro => micro_scores(counts, metric, parallel, zero_division),
        Average::Macro => macro_scores(counts, metric, parallel, zero_division),
        Average::Weighted => weighted_scores(counts, metric, parallel, zero_division),
    }
}

/// How the averages come from the counts of the classes.
///
/// The macro average of each score is the unweighted mean of that score over
/// the classes, as the scoring without averaging gives it. The weighted
/// average is the sum of each class's score times its support, over the total
/// support. The micro average is no mean of the scores of the classes: its
/// precision and recall are those of the counts summed over the classes.
/// Every one of them reports the total support.
pub proof fn lemma_aggregation_identities<F: Float>(counts: ClassCountsView<F>, metric: Metric)
    ensures
        ({
            let beta = beta_spec::<F>(metric);
            let total = total_support(counts.support) as u128;
            let hits = fold_sum(counts.true_positives);
            let pooled_precision = hit_rate_spec(hits, fold_sum(counts.false_positives));
            let pooled_recall = hit_rate_spec(hits, fold_sum(counts.false_negatives));
            &&& scores_spec(counts, metric, Average::PerClass) matches ScoresView::PerClassScore(
                classes,
            ) && {
                &&& scores_spec(counts, metric, Average::Macro) == ScoresView::AverageScore(
                    AverageScore {
                        precision: mean_spec(classes.precision),
                        recall: mean_spec(classes.recall),
                        fscore: mean_spec(classes.fscore),
                        support: total,
                    },
                )
                &&& scores_spec(counts, metric, Average::Weighted) == ScoresView::AverageScore(
                    AverageScore {
                        precision: weighted_mean_spec(classes.precision, classes.support),
                        recall: weighted_mean_spec(classes.recall, classes.support),
                        fscore: weighted_mean_spec(classes.fscore, classes.support),
                        support: total,
                    },
                )
            }
            &&& scores_spec(counts, metric, Average::Micro) == ScoresView::AverageScore(
                AverageScore {
                    precision: pooled_precision,
                    recall: pooled_recall,
                    fscore: fbeta_spec(pooled_precision, pooled_recall, beta),
                    support: total,
                },
            )
        }),
{
}

} // verus!

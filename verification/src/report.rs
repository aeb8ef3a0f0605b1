use vstd::prelude::*;
use crate::error::BenchError;
use crate::metrics::{accuracy, agreements, Accuracy};

verus! {

/// The stage at which a model gave up.
#[derive(Debug, Clone, Copy, PartialEq, Eq, Structural)]
pub enum ModelFailure {
    Fit,
    Predict,
}

/// What running one model on the shared split came to.
#[derive(Debug, Clone, PartialEq, Eq)]
pub enum Outcome {
    /// The label codes it predicted for the test rows.
    Predicted(Vec<u8>),
    /// It failed, at the given stage.
    Failed(ModelFailure),
}

/// What the report says of one model.
#[derive(Debug, Clone, PartialEq, Eq)]
pub enum Evaluation {
    /// The model predicted and was scored.
    Scored(Accuracy),
    /// The model failed; no score exists.
    Failed(ModelFailure),
    /// The model's predictions cannot be scored against the test labels.
    Rejected(BenchError),
}

/// One line of the report: the position of the model in the configured
/// order, and its evaluation.
#[derive(Debug, Clone, PartialEq, Eq)]
pub struct MetricResult {
    pub model: usize,
    pub evaluation: Evaluation,
}

/// The evaluation that an outcome earns against the test labels. It
/// depends on nothing but that outcome and the labels.
pub open spec fn evaluation_of(y_test: Seq<u8>, outcome: Outcome) -> Evaluation {
    match outcome {
        Outcome::Failed(stage) => Evaluation::Failed(stage),
        Outcome::Predicted(y_preds) => if y_preds@.len() != y_test.len() {
            Evaluation::Rejected(
                BenchError::DimensionMismatch {
                    expected: y_test.len() as usize,
                    found: y_preds@.len() as usize,
                },
            )
        } else if y_test.len() == 0 {
            Evaluation::Rejected(BenchError::EmptyInput)
        } else {
            Evaluation::Scored(
                Accuracy {
                    correct: agreements(y_test, y_preds@) as usize,
                    total: y_test.len() as usize,
                },
            )
        },
    }
}

/// Evaluates one model's outcome.
pub fn evaluate(y_test: &Vec<u8>, outcome: &Outcome) -> (e: Evaluation)
    ensures
        e == evaluation_of(y_test@, *outcome),
{
    match outcome {
        Outcome::Failed(stage) => Evaluation::Failed(*stage),
        Outcome::Predicted(y_preds) => match accuracy(y_test, y_preds) {
            Ok(score) => Evaluation::Scored(score),
            Err(e) => Evaluation::Rejected(e),
        },
    }
}

/// Evaluates every model's outcome, in the configured order. A model that
/// failed has its failure reported in its own line and changes no other
/// line.
pub fn report(y_test: &Vec<u8>, outcomes: &Vec<Outcome>) -> (lines: Vec<MetricResult>)
    ensures
        lines@.len() == outcomes@.len(),
        forall|i: int|
            0 <= i < outcomes@.len() ==> (#[trigger] lines@[i]).model == i && lines@[i].evaluation
                == evaluation_of(y_test@, outcomes@[i]),
{
    let n = outcomes.len();
    let mut lines: Vec<MetricResult> = Vec::new();
    let mut i: usize = 0;
    while i < n
        invariant
            n == outcomes@.len(),
            i <= n,
            lines@.len() == i,
            forall|k: int|
                0 <= k < i ==> (#[trigger] lines@[k]).model == k && lines@[k].evaluation
                    == evaluation_of(y_test@, outcomes@[k]),
        decreases n - i,
    {
        let evaluation = evaluate(y_test, &outcomes[i]);
        lines.push(MetricResult { model: i, evaluation });
        i = i + 1;
    }
    lines
}

} // verus!

use classification_bench::error::BenchError;
use classification_bench::metrics::{accuracy, logloss_terms, Accuracy, LossTerm};
use classification_bench::report::{evaluate, report, Evaluation, MetricResult, ModelFailure, Outcome};

#[test]
fn accuracy_counts_agreeing_positions() {
    let actual = vec![0, 1, 2, 2, 1];
    let predicted = vec![0, 2, 2, 1, 1];
    assert_eq!(accuracy(&actual, &predicted), Ok(Accuracy { correct: 3, total: 5 }));
}

#[test]
fn accuracy_against_itself_is_one() {
    let y = vec![0, 1, 2, 1, 0, 2, 2];
    let a = accuracy(&y, &y).unwrap();
    assert_eq!(a.correct, a.total);
    assert_eq!(a.total, 7);
    assert_eq!(a.correct as f32 / a.total as f32, 1.0);
}

#[test]
fn accuracy_survives_a_common_permutation() {
    let actual = vec![0, 1, 2, 2, 1];
    let predicted = vec![0, 2, 2, 1, 1];
    let order = [3usize, 0, 4, 2, 1];
    let actual_permuted: Vec<u8> = order.iter().map(|i| actual[*i]).collect();
    let predicted_permuted: Vec<u8> = order.iter().map(|i| predicted[*i]).collect();
    assert_eq!(accuracy(&actual, &predicted), accuracy(&actual_permuted, &predicted_permuted));
}

#[test]
fn accuracy_of_nothing_is_undefined() {
    assert_eq!(accuracy(&Vec::new(), &Vec::new()), Err(BenchError::EmptyInput));
}

#[test]
fn accuracy_refuses_different_lengths() {
    let actual = vec![0];
    let predicted = vec![0, 1];
    assert_eq!(
        accuracy(&actual, &predicted),
        Err(BenchError::DimensionMismatch { expected: 1, found: 2 })
    );
    assert_eq!(
        accuracy(&Vec::new(), &predicted),
        Err(BenchError::DimensionMismatch { expected: 0, found: 2 })
    );
}

#[test]
fn logloss_terms_follow_the_actual_labels() {
    let actual = vec![1, 0, 0, 1];
    assert_eq!(
        logloss_terms(&actual, 4),
        Ok(vec![
            LossTerm::OfPrediction,
            LossTerm::OfComplement,
            LossTerm::OfComplement,
            LossTerm::OfPrediction,
        ])
    );
}

#[test]
fn logloss_terms_of_nothing_are_none() {
    assert_eq!(logloss_terms(&Vec::new(), 0), Ok(Vec::new()));
}

#[test]
fn logloss_terms_refuse_different_lengths() {
    assert_eq!(
        logloss_terms(&vec![0], 2),
        Err(BenchError::DimensionMismatch { expected: 1, found: 2 })
    );
    assert_eq!(
        logloss_terms(&vec![0, 7], 1),
        Err(BenchError::DimensionMismatch { expected: 2, found: 1 })
    );
}

#[test]
fn logloss_terms_name_the_first_label_that_is_not_binary() {
    assert_eq!(
        logloss_terms(&vec![1, 0, 2, 3], 4),
        Err(BenchError::InvalidLabel { index: 2, value: 2 })
    );
}

#[test]
fn logloss_sum_of_seven_rows() {
    let actual = vec![1, 0, 0, 1, 1, 0, 0];
    let predicted: Vec<f64> = vec![
        1.0,
        0.0001,
        0.908047338626,
        0.0199900075962,
        0.904058545833,
        0.321508119045,
        0.657086320195,
    ];
    let eps: f64 = 1e-15;
    let terms = logloss_terms(&actual, predicted.len()).unwrap();
    let mut sum: f64 = 0.0;
    for (i, term) in terms.iter().enumerate() {
        let p = predicted[i].min(1.0 - eps).max(eps);
        let contribution = match term {
            LossTerm::OfPrediction => -p.ln(),
            LossTerm::OfComplement => -(1.0 - p).ln(),
        };
        assert!(contribution.is_finite());
        assert!(contribution >= 0.0);
        sum += contribution;
    }
    assert!((sum - 7.858124589521169).abs() < 1e-6);
}

#[test]
fn evaluate_scores_predictions() {
    let y_test = vec![0, 1, 2, 1];
    assert_eq!(
        evaluate(&y_test, &Outcome::Predicted(vec![0, 1, 1, 1])),
        Evaluation::Scored(Accuracy { correct: 3, total: 4 })
    );
}

#[test]
fn evaluate_passes_a_failure_on() {
    let y_test = vec![0, 1];
    assert_eq!(
        evaluate(&y_test, &Outcome::Failed(ModelFailure::Fit)),
        Evaluation::Failed(ModelFailure::Fit)
    );
    assert_eq!(
        evaluate(&y_test, &Outcome::Failed(ModelFailure::Predict)),
        Evaluation::Failed(ModelFailure::Predict)
    );
}

#[test]
fn evaluate_rejects_predictions_that_cannot_be_scored() {
    assert_eq!(
        evaluate(&vec![0, 1], &Outcome::Predicted(vec![0])),
        Evaluation::Rejected(BenchError::DimensionMismatch { expected: 2, found: 1 })
    );
    assert_eq!(
        evaluate(&Vec::new(), &Outcome::Predicted(Vec::new())),
        Evaluation::Rejected(BenchError::EmptyInput)
    );
}

#[test]
fn report_keeps_the_configured_order_and_isolates_failures() {
    let y_test = vec![0, 1, 2];
    let outcomes = vec![
        Outcome::Predicted(vec![0, 1, 2]),
        Outcome::Failed(ModelFailure::Fit),
        Outcome::Predicted(vec![2, 1, 0]),
    ];
    assert_eq!(
        report(&y_test, &outcomes),
        vec![
            MetricResult { model: 0, evaluation: Evaluation::Scored(Accuracy { correct: 3, total: 3 }) },
            MetricResult { model: 1, evaluation: Evaluation::Failed(ModelFailure::Fit) },
            MetricResult { model: 2, evaluation: Evaluation::Scored(Accuracy { correct: 1, total: 3 }) },
        ]
    );
}

#[test]
fn report_of_no_models_is_empty() {
    assert!(report(&vec![0, 1], &Vec::new()).is_empty());
}

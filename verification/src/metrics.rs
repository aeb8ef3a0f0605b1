use vstd::prelude::*;
use vstd::seq_lib::to_multiset_remove;
use crate::error::BenchError;

verus! {

/// The number of positions at which two label vectors of one length agree.
pub open spec fn agreements(actual: Seq<u8>, predicted: Seq<u8>) -> nat
    recommends
        actual.len() == predicted.len(),
    decreases actual.len(),
{
    if actual.len() == 0 || predicted.len() == 0 {
        0
    } else {
        agreements(actual.drop_last(), predicted.drop_last()) + if actual.last()
            == predicted.last() {
            1nat
        } else {
            0nat
        }
    }
}

/// A share of correct predictions, kept as the two counts it is made of.
/// Its value is `correct / total`.
#[derive(Debug, Clone, Copy, PartialEq, Eq, Structural)]
pub struct Accuracy {
    pub correct: usize,
    pub total: usize,
}

/// Counts the positions where the predicted code equals the actual one.
/// Vectors of different lengths are refused before any position is read,
/// and so is a pair of empty vectors, over which no share is defined.
pub fn accuracy(y_test: &Vec<u8>, y_preds: &Vec<u8>) -> (r: Result<Accuracy, BenchError>)
    ensures
        y_test@.len() != y_preds@.len() ==> (r matches Err(
            BenchError::DimensionMismatch { expected, found },
        ) && expected == y_test@.len() && found == y_preds@.len()),
        y_test@.len() == y_preds@.len() && y_test@.len() == 0 ==> r matches Err(
            BenchError::EmptyInput,
        ),
        y_test@.len() == y_preds@.len() && y_test@.len() > 0 ==> (r matches Ok(a) && a.total
            == y_test@.len() && a.correct == agreements(y_test@, y_preds@)),
{
    let n = y_test.len();
    if n != y_preds.len() {
        return Err(BenchError::DimensionMismatch { expected: n, found: y_preds.len() });
    }
    if n == 0 {
        return Err(BenchError::EmptyInput);
    }
    let mut correct: usize = 0;
    let mut i: usize = 0;
    while i < n
        invariant
            n == y_test@.len(),
            n == y_preds@.len(),
            i <= n,
            correct <= i,
            correct == agreements(y_test@.take(i as int), y_preds@.take(i as int)),
        decreases n - i,
    {
        proof {
            assert(y_test@.take(i + 1).drop_last() =~= y_test@.take(i as int));
            assert(y_preds@.take(i + 1).drop_last() =~= y_preds@.take(i as int));
        }
        if y_preds[i] == y_test[i] {
            correct = correct + 1;
        }
        i = i + 1;
    }
    proof {
        assert(y_test@.take(n as int) =~= y_test@);
        assert(y_preds@.take(n as int) =~= y_preds@);
    }
    Ok(Accuracy { correct, total: n })
}

/// A vector agrees with itself at every position: its accuracy against
/// itself is `len / len`.
pub proof fn agreements_with_self(y: Seq<u8>)
    ensures
        agreements(y, y) == y.len(),
    decreases y.len(),
{
    if y.len() > 0 {
        agreements_with_self(y.drop_last());
    }
}

/// The two vectors position by position, as pairs `(actual, predicted)`.
pub open spec fn paired(actual: Seq<u8>, predicted: Seq<u8>) -> Seq<(u8, u8)>
    recommends
        actual.len() == predicted.len(),
{
    Seq::new(actual.len(), |i: int| (actual[i], predicted[i]))
}

/// Taking one position out of both vectors takes out its agreement.
proof fn agreements_remove(actual: Seq<u8>, predicted: Seq<u8>, k: int)
    requires
        actual.len() == predicted.len(),
        0 <= k < actual.len(),
    ensures
        agreements(actual, predicted) == agreements(actual.remove(k), predicted.remove(k)) + if actual[k]
            == predicted[k] {
            1nat
        } else {
            0nat
        },
    decreases actual.len(),
{
    let last = actual.len() - 1;
    if k == last {
        assert(actual.remove(k) =~= actual.drop_last());
        assert(predicted.remove(k) =~= predicted.drop_last());
    } else {
        agreements_remove(actual.drop_last(), predicted.drop_last(), k);
        assert(actual.remove(k).drop_last() =~= actual.drop_last().remove(k));
        assert(predicted.remove(k).drop_last() =~= predicted.drop_last().remove(k));
        assert(actual.remove(k).last() == actual.last());
        assert(predicted.remove(k).last() == predicted.last());
    }
}

/// Accuracy does not depend on the order of the positions: where the pairs
/// of one pair of vectors are a rearrangement of the pairs of another, both
/// agree at equally many positions.
pub proof fn agreements_permutation_invariant(
    actual: Seq<u8>,
    predicted: Seq<u8>,
    actual_permuted: Seq<u8>,
    predicted_permuted: Seq<u8>,
)
    requires
        actual.len() == predicted.len(),
        actual_permuted.len() == predicted_permuted.len(),
        paired(actual, predicted).to_multiset() == paired(
            actual_permuted,
            predicted_permuted,
        ).to_multiset(),
    ensures
        agreements(actual, predicted) == agreements(actual_permuted, predicted_permuted),
    decreases actual.len(),
{
    let p = paired(actual, predicted);
    let q = paired(actual_permuted, predicted_permuted);
    vstd::seq_lib::to_multiset_len(p);
    vstd::seq_lib::to_multiset_len(q);
    if actual.len() > 0 {
        let last = actual.len() - 1;
        let item = p[last];
        vstd::seq_lib::to_multiset_contains(p, item);
        vstd::seq_lib::to_multiset_contains(q, item);
        assert(p.contains(item));
        assert(q.contains(item));
        let k = choose|k: int| 0 <= k < q.len() && q[k] == item;
        to_multiset_remove(p, last);
        to_multiset_remove(q, k);
        assert(p.remove(last) =~= paired(actual.remove(last), predicted.remove(last)));
        assert(q.remove(k) =~= paired(actual_permuted.remove(k), predicted_permuted.remove(k)));
        agreements_permutation_invariant(
            actual.remove(last),
            predicted.remove(last),
            actual_permuted.remove(k),
            predicted_permuted.remove(k),
        );
        agreements_remove(actual, predicted, last);
        agreements_remove(actual_permuted, predicted_permuted, k);
    }
}

/// `order` lists every position below its length exactly once.
pub open spec fn is_reordering(order: Seq<int>) -> bool {
    &&& forall|i: int| 0 <= i < order.len() ==> 0 <= #[trigger] order[i] < order.len()
    &&& forall|i: int, j: int|
        0 <= i < j < order.len() ==> #[trigger] order[i] != #[trigger] order[j]
}

/// The vector read in the given order of positions.
pub open spec fn reordered(y: Seq<u8>, order: Seq<int>) -> Seq<u8> {
    Seq::new(order.len(), |i: int| y[order[i]])
}

/// Accuracy is the same after one reordering of the positions of both
/// vectors.
pub proof fn agreements_reordered(actual: Seq<u8>, predicted: Seq<u8>, order: Seq<int>)
    requires
        actual.len() == predicted.len(),
        order.len() == actual.len(),
        is_reordering(order),
    ensures
        agreements(reordered(actual, order), reordered(predicted, order)) == agreements(
            actual,
            predicted,
        ),
{
    let p = paired(actual, predicted);
    let q = paired(reordered(actual, order), reordered(predicted, order));
    assert(q =~= Seq::new(order.len(), |i: int| p[order[i]]));
    reordering_keeps_items(p, order);
    agreements_permutation_invariant(
        actual,
        predicted,
        reordered(actual, order),
        reordered(predicted, order),
    );
}

/// Reading a sequence in a reordering of its positions gives the same
/// items, each as often.
proof fn reordering_keeps_items(p: Seq<(u8, u8)>, order: Seq<int>)
    requires
        order.len() == p.len(),
        is_reordering(order),
    ensures
        Seq::new(order.len(), |i: int| p[order[i]]).to_multiset() == p.to_multiset(),
    decreases p.len(),
{
    let q = Seq::new(order.len(), |i: int| p[order[i]]);
    if p.len() == 0 {
        assert(q =~= p);
    } else {
        let last = order.len() - 1;
        let k = order[last];
        let rest = Seq::new(
            last as nat,
            |i: int| if order[i] > k {
                order[i] - 1
            } else {
                order[i]
            },
        );
        assert(is_reordering(rest)) by {
            assert forall|i: int| 0 <= i < rest.len() implies 0 <= #[trigger] rest[i]
                < rest.len() by {
                assert(order[i] != order[last]);
            }
            assert forall|i: int, j: int| 0 <= i < j < rest.len() implies #[trigger] rest[i]
                != #[trigger] rest[j] by {
                assert(order[i] != order[j]);
                assert(order[i] != order[last]);
                assert(order[j] != order[last]);
            }
        }
        let smaller = p.remove(k);
        reordering_keeps_items(smaller, rest);
        let q_rest = Seq::new(rest.len(), |i: int| smaller[rest[i]]);
        assert(q_rest =~= q.drop_last()) by {
            assert forall|i: int| 0 <= i < rest.len() implies q_rest[i] == q.drop_last()[i] by {
                assert(order[i] != order[last]);
            }
        }
        to_multiset_remove(p, k);
        assert(q =~= q.drop_last().push(p[k]));
        vstd::seq_lib::to_multiset_build(q.drop_last(), p[k]);
        vstd::seq_lib::to_multiset_contains(p, p[k]);
        assert(p.contains(p[k]));
        assert(p.to_multiset().remove(p[k]).insert(p[k]) =~= p.to_multiset());
    }
}

/// Which logarithm a position contributes to the clipped log-loss, `p`
/// being the clipped predicted probability of that position.
#[derive(Debug, Clone, Copy, PartialEq, Eq, Structural)]
pub enum LossTerm {
    /// `-ln(p)`: the actual label is 1.
    OfPrediction,
    /// `-ln(1 - p)`: the actual label is 0.
    OfComplement,
}

/// The term that an actual label asks for, if the label is binary.
pub open spec fn loss_term(label: u8) -> Option<LossTerm> {
    if label == 1 {
        Some(LossTerm::OfPrediction)
    } else if label == 0 {
        Some(LossTerm::OfComplement)
    } else {
        None
    }
}

/// Decides, for the log-loss of `predicted_len` probabilities against the
/// actual labels, the term of every position. Different lengths are refused
/// first; after that the first label that is neither 0 nor 1 is.
pub fn logloss_terms(y_test: &Vec<u8>, predicted_len: usize) -> (r: Result<
    Vec<LossTerm>,
    BenchError,
>)
    ensures
        y_test@.len() != predicted_len ==> (r matches Err(
            BenchError::DimensionMismatch { expected, found },
        ) && expected == y_test@.len() && found == predicted_len),
        y_test@.len() == predicted_len ==> match r {
            Ok(terms) => {
                &&& terms@.len() == y_test@.len()
                &&& forall|i: int|
                    0 <= i < y_test@.len() ==> loss_term(#[trigger] y_test@[i]) == Some(terms@[i])
            },
            Err(BenchError::InvalidLabel { index, value }) => {
                &&& index < y_test@.len()
                &&& value == y_test@[index as int]
                &&& loss_term(value).is_none()
                &&& forall|i: int| 0 <= i < index ==> loss_term(#[trigger] y_test@[i]).is_some()
            },
            Err(_) => false,
        },
{
    let n = y_test.len();
    if n != predicted_len {
        return Err(BenchError::DimensionMismatch { expected: n, found: predicted_len });
    }
    let mut terms: Vec<LossTerm> = Vec::new();
    let mut i: usize = 0;
    while i < n
        invariant
            n == y_test@.len(),
            n == predicted_len,
            i <= n,
            terms@.len() == i,
            forall|j: int| 0 <= j < i ==> loss_term(#[trigger] y_test@[j]) == Some(terms@[j]),
        decreases n - i,
    {
        let label: u8 = y_test[i];
        if label == 1 {
            terms.push(LossTerm::OfPrediction);
        } else if label == 0 {
            terms.push(LossTerm::OfComplement);
        } else {
            return Err(BenchError::InvalidLabel { index: i, value: label });
        }
        i = i + 1;
    }
    Ok(terms)
}

} // verus!

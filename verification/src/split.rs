use vstd::prelude::*;
use vstd::seq_lib::{lemma_multiset_commutative, to_multiset_len};
use rand::rngs::{OsRng, StdRng};
use rand::seq::SliceRandom;
use rand::SeedableRng;
use crate::error::BenchError;
use crate::record::Record;

verus! {

/// A share between zero and one, as a ratio of two integers.
#[derive(Debug, Clone, Copy, PartialEq, Eq)]
pub struct TestFraction {
    numerator: u32,
    denominator: u32,
}

/// `numerator / denominator` of `n`, rounded to the nearest integer, a half
/// rounding up.
pub open spec fn rounded_share(n: nat, numerator: nat, denominator: nat) -> nat {
    (2 * numerator * n + denominator) / (2 * denominator)
}

impl TestFraction {
    pub closed spec fn numerator(&self) -> nat {
        self.numerator as nat
    }

    pub closed spec fn denominator(&self) -> nat {
        self.denominator as nat
    }

    /// A fraction is a share: its denominator is positive and its numerator
    /// does not exceed it. This holds of every fraction that exists.
    #[verifier::type_invariant]
    pub open spec fn wf(&self) -> bool {
        0 < self.denominator() && self.numerator() <= self.denominator()
    }

    /// The size of the test subset of a dataset of `n` records.
    pub open spec fn share_of(&self, n: nat) -> nat {
        rounded_share(n, self.numerator(), self.denominator())
    }

    /// The share `numerator / denominator`, where that lies in `[0, 1]`.
    pub fn new(numerator: u32, denominator: u32) -> (f: Option<TestFraction>)
        ensures
            f.is_some() == (0 < denominator && numerator <= denominator),
            f matches Some(t) ==> t.wf() && t.numerator() == numerator && t.denominator()
                == denominator,
    {
        if 0 < denominator && numerator <= denominator {
            Some(TestFraction { numerator, denominator })
        } else {
            None
        }
    }

    /// One fifth, the share used when none is configured.
    pub fn one_fifth() -> (f: TestFraction)
        ensures
            f.wf(),
            f.numerator() == 1,
            f.denominator() == 5,
    {
        TestFraction { numerator: 1, denominator: 5 }
    }

    /// The number of test records among `n`.
    pub fn test_size(&self, n: usize) -> (k: usize)
        ensures
            k == self.share_of(n as nat),
            k <= n,
    {
        let num: u128 = self.numerator as u128;
        let den: u128 = self.denominator as u128;
        let len: u128 = n as u128;
        proof {
            use_type_invariant(self);
            share_is_nearest(n as nat, num as nat, den as nat);
            assert(2 * num * len <= 2 * 0xffff_ffff * 0xffff_ffff_ffff_ffff) by (nonlinear_arith)
                requires
                    num <= 0xffff_ffff,
                    len <= 0xffff_ffff_ffff_ffff,
            ;
        }
        let k: u128 = (2 * num * len + den) / (2 * den);
        k as usize
    }
}

/// `rounded_share` is the integer nearest to the exact share, and no share
/// of `n` exceeds `n`.
pub proof fn share_is_nearest(n: nat, numerator: nat, denominator: nat)
    requires
        0 < denominator,
        numerator <= denominator,
    ensures
        2 * denominator * rounded_share(n, numerator, denominator) <= 2 * numerator * n
            + denominator,
        2 * numerator * n + denominator < 2 * denominator * (rounded_share(
            n,
            numerator,
            denominator,
        ) + 1),
        rounded_share(n, numerator, denominator) <= n,
        numerator == 0 ==> rounded_share(n, numerator, denominator) == 0,
        numerator == denominator ==> rounded_share(n, numerator, denominator) == n,
{
    let a = (2 * numerator * n + denominator) as int;
    let d = (2 * denominator) as int;
    let k = a / d;
    vstd::arithmetic::div_mod::lemma_fundamental_div_mod(a, d);
    vstd::arithmetic::div_mod::lemma_mod_bound(a, d);
    assert(d * k <= a < d * (k + 1)) by (nonlinear_arith)
        requires
            a == d * k + a % d,
            0 <= a % d < d,
    ;
    assert(2 * numerator * n <= 2 * denominator * n) by (nonlinear_arith)
        requires
            numerator <= denominator,
    ;
    assert(k <= n) by (nonlinear_arith)
        requires
            d * k <= a,
            a <= d * n + denominator,
            d == 2 * denominator,
            0 < denominator,
    ;
    if numerator == 0 {
        assert(2 * numerator * n == 0) by (nonlinear_arith)
            requires
                numerator == 0,
        ;
        assert(k == 0) by (nonlinear_arith)
            requires
                d * k <= a,
                a == denominator,
                d == 2 * denominator,
                0 < denominator,
                0 <= k,
        ;
    }
    if numerator == denominator {
        assert(k == n) by (nonlinear_arith)
            requires
                a < d * (k + 1),
                a == d * n + denominator,
                d == 2 * denominator,
                0 < denominator,
                k <= n,
        ;
    }
}

/// A train/test partition of a dataset.
#[derive(Debug, Clone, PartialEq, Eq)]
pub struct Split {
    pub test: Vec<Record>,
    pub train: Vec<Record>,
}

/// `rand::rngs::StdRng`, handed from where it is made to the shuffle and
/// never looked into.
#[verifier::external_type_specification]
#[verifier::external_body]
pub struct ExStdRng(StdRng);

/// `SeedableRng::seed_from_u64` for `StdRng`: a generator whose output is
/// fixed by `seed`. Nothing is claimed of the generator.
#[verifier::external_body]
fn seeded_rng(seed: u64) -> StdRng {
    StdRng::seed_from_u64(seed)
}

/// `SeedableRng::from_rng` on `OsRng`: a generator seeded by the operating
/// system, or `None` where it gives no entropy. Nothing is claimed of the
/// outcome.
#[verifier::external_body]
fn entropy_rng() -> Option<StdRng> {
    StdRng::from_rng(OsRng).ok()
}

/// `SliceRandom::shuffle`: swaps records in place, so the vector holds the
/// same records as before, each as often as before, in some order.
#[verifier::external_body]
fn shuffle_records(records: &mut Vec<Record>, rng: &mut StdRng)
    ensures
        final(records)@.to_multiset() == old(records)@.to_multiset(),
{
    records.shuffle(rng)
}

/// Cuts an already shuffled dataset: the first records, as many as the
/// fraction's share of the whole, are the test subset, the others the
/// training subset, both in the order given.
pub fn partition(shuffled: Vec<Record>, fraction: &TestFraction) -> (s: Split)
    ensures
        s.test@ == shuffled@.take(fraction.share_of(shuffled@.len()) as int),
        s.train@ == shuffled@.skip(fraction.share_of(shuffled@.len()) as int),
        s.test@ + s.train@ == shuffled@,
{
    let k = fraction.test_size(shuffled.len());
    let mut test = shuffled;
    let train = test.split_off(k);
    assert(test@ + train@ =~= shuffled@);
    Split { test, train }
}

/// Shuffles the dataset and cuts it. With a seed the shuffle is
/// reproducible; without one the generator is seeded by the operating
/// system, and the split fails only where that gives no entropy.
pub fn split(dataset: Vec<Record>, fraction: &TestFraction, seed: Option<u64>) -> (r: Result<
    Split,
    BenchError,
>)
    ensures
        seed.is_some() ==> r.is_ok(),
        r matches Err(e) ==> e is Entropy,
        r matches Ok(s) ==> {
            &&& s.test@.len() == fraction.share_of(dataset@.len())
            &&& s.test@.len() + s.train@.len() == dataset@.len()
            &&& s.test@.to_multiset().add(s.train@.to_multiset()) == dataset@.to_multiset()
        },
{
    let rng = match seed {
        Some(value) => Some(seeded_rng(value)),
        None => entropy_rng(),
    };
    match rng {
        Some(mut generator) => {
            let mut shuffled = dataset;
            shuffle_records(&mut shuffled, &mut generator);
            proof {
                use_type_invariant(fraction);
                to_multiset_len(shuffled@);
                to_multiset_len(dataset@);
                share_is_nearest(
                    shuffled@.len(),
                    fraction.numerator(),
                    fraction.denominator(),
                );
            }
            let s = partition(shuffled, fraction);
            proof {
                lemma_multiset_commutative(s.test@, s.train@);
            }
            Ok(s)
        },
        None => Err(BenchError::Entropy),
    }
}

} // verus!

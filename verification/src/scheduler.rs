//! Work distribution: how a requested document total is split over workers.
//!
//! `split` computes one share per worker. The first `total % workers`
//! workers receive one document more than the rest, so the shares always
//! sum to the requested total, whatever the worker count.
use vstd::prelude::*;

verus! {

use vstd::arithmetic::div_mod::lemma_fundamental_div_mod;

/// The share of worker `i` when `total` documents are spread over
/// `workers` workers: the remainder goes to the earliest workers.
pub open spec fn share_spec(total: int, workers: int, i: int) -> int
    recommends
        workers >= 1,
{
    total / workers + if i < total % workers {
        1int
    } else {
        0int
    }
}

/// The sum of a sequence of shares.
pub open spec fn sum_spec(s: Seq<u64>) -> int
    decreases s.len(),
{
    if s.len() == 0 {
        0
    } else {
        sum_spec(s.drop_last()) + s.last()
    }
}

/// The sum of the first `k` shares of the `total`-over-`workers` split.
pub open spec fn partial_spec(total: int, workers: int, k: int) -> int
    decreases k,
{
    if k <= 0 {
        0
    } else {
        partial_spec(total, workers, k - 1) + share_spec(total, workers, k - 1)
    }
}

/// The running share sum has the closed form `k * (total / workers) +
/// min(k, total % workers)`.
proof fn lemma_partial_closed(total: int, workers: int, k: int)
    requires
        workers >= 1,
        0 <= k,
    ensures
        partial_spec(total, workers, k) == k * (total / workers) + if k <= total % workers {
            k
        } else {
            total % workers
        },
    decreases k,
{
    let q = total / workers;
    if k == 0 {
        assert(0 * q == 0) by (nonlinear_arith);
    } else {
        lemma_partial_closed(total, workers, k - 1);
        assert((k - 1) * q + q == k * q) by (nonlinear_arith);
    }
}

/// The shares of a split sum exactly to the requested total: no document is
/// lost or invented by distributing the work.
pub proof fn lemma_split_total(total: int, workers: int)
    requires
        workers >= 1,
        0 <= total,
    ensures
        partial_spec(total, workers, workers) == total,
{
    let q = total / workers;
    let r = total % workers;
    lemma_partial_closed(total, workers, workers);
    lemma_fundamental_div_mod(total, workers);
    assert(workers * q == q * workers) by (nonlinear_arith);
}

/// Splits `total` documents over `workers` workers.
///
/// Every worker receives `total / workers` documents and the first
/// `total % workers` workers one more, so the shares sum exactly to
/// `total`; with more workers than documents the trailing shares are zero.
pub fn split(total: u64, workers: u64) -> (shares: Vec<u64>)
    requires
        workers >= 1,
    ensures
        shares@.len() == workers,
        forall|i: int|
            0 <= i < workers ==> shares@[i] as int == share_spec(
                total as int,
                workers as int,
                i,
            ),
        sum_spec(shares@) == total,
{
    let q: u64 = total / workers;
    let r: u64 = total % workers;
    proof {
        lemma_fundamental_div_mod(total as int, workers as int);
    }
    let mut shares: Vec<u64> = Vec::new();
    let mut i: u64 = 0;
    while i < workers
        invariant
            workers >= 1,
            i <= workers,
            q == total / workers,
            r == total % workers,
            total as int == workers as int * q as int + r as int,
            shares@.len() == i,
            forall|j: int|
                0 <= j < i ==> shares@[j] as int == share_spec(total as int, workers as int, j),
            sum_spec(shares@) == partial_spec(total as int, workers as int, i as int),
        decreases workers - i,
    {
        let next: u64 = if i < r {
            proof {
                assert(q < u64::MAX) by (nonlinear_arith)
                    requires
                        total as int == workers as int * q as int + r as int,
                        0 < r < workers,
                        total <= u64::MAX,
                        q >= 0,
                ;
            }
            q + 1
        } else {
            q
        };
        let ghost prev = shares@;
        shares.push(next);
        proof {
            assert(shares@.drop_last() =~= prev);
        }
        i = i + 1;
    }
    proof {
        lemma_split_total(total as int, workers as int);
    }
    shares
}

} // verus!

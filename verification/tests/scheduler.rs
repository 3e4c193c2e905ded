//! Work-distribution tests: shares of a split.
use jen::scheduler::split;

#[test]
fn split_ten_over_three() {
    assert_eq!(split(10, 3), vec![4, 3, 3]);
}

#[test]
fn split_five_over_seven() {
    assert_eq!(split(5, 7), vec![1, 1, 1, 1, 1, 0, 0]);
}

#[test]
fn split_zero_total() {
    assert_eq!(split(0, 4), vec![0, 0, 0, 0]);
}

#[test]
fn split_one_worker_takes_all() {
    assert_eq!(split(42, 1), vec![42]);
}

#[test]
fn split_sums_to_total_everywhere() {
    for total in 0..60u64 {
        for workers in 1..20u64 {
            let shares = split(total, workers);
            assert_eq!(shares.len() as u64, workers);
            assert_eq!(shares.iter().sum::<u64>(), total);
            // earlier workers take the remainder, one document each
            for i in 1..shares.len() {
                assert!(shares[i - 1] >= shares[i]);
                assert!(shares[i - 1] - shares[i] <= 1);
            }
        }
    }
}

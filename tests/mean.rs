use hamurusti::AccumulatingMean;

#[test]
fn test_acc_mean() {
    // Observations in millionths: 1, 2, 3 and 4.5.
    let mut acc_mean = AccumulatingMean::new();
    let numbers: [u64; 4] = [1_000_000, 2_000_000, 3_000_000, 4_500_000];
    for i in 0..numbers.len() {
        acc_mean.push(numbers[i]);
        let sum: u64 = numbers.iter().take(i + 1).sum();
        let mean = sum / (i + 1) as u64;
        assert_eq!(acc_mean.mean(), mean);
    }
    assert_eq!(acc_mean.mean() as f64 / 1e6, 2.625);
}

#[test]
fn empty_mean_is_zero() {
    let acc_mean = AccumulatingMean::new();
    assert_eq!(acc_mean.mean(), 0);
    assert_eq!(acc_mean.count(), 0);
    assert!(!acc_mean.exceeds(0));
}

#[test]
fn mean_does_not_depend_on_order() {
    let mut a = AccumulatingMean::new();
    let mut b = AccumulatingMean::new();
    for x in [7u64, 1, 10, 4] {
        a.push(x);
    }
    for x in [4u64, 10, 1, 7] {
        b.push(x);
    }
    assert_eq!(a.mean(), 5);
    assert_eq!(a.mean(), b.mean());
    assert_eq!(a.count(), 4);
}

#[test]
fn mean_rounds_down_but_exceeds_is_exact() {
    let mut m = AccumulatingMean::new();
    m.push(3);
    m.push(4);
    assert_eq!(m.mean(), 3);
    assert!(m.exceeds(3));
    assert!(!m.exceeds(4));
}

#[test]
fn mean_of_large_values() {
    let mut m = AccumulatingMean::new();
    m.push(u64::MAX);
    m.push(u64::MAX);
    m.push(u64::MAX);
    assert_eq!(m.mean(), u64::MAX);
    assert!(m.exceeds(u64::MAX - 1));
    assert!(!m.exceeds(u64::MAX));
}

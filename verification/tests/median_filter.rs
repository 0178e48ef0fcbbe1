//! Tests of the bounded streaming median filter: occupancy, the
//! documented even-count tie-break, and strict oldest-first eviction.

use tank_monitor::median::MedianFilter;

#[test]
fn empty_window_has_no_median() {
    let filter = MedianFilter::new(16);
    assert_eq!(filter.len(), 0);
    assert_eq!(filter.median(), None);
}

#[test]
fn len_counts_pushes_below_capacity() {
    let mut filter = MedianFilter::new(100);
    for (i, v) in [7u64, 3, 9, 1, 5].iter().enumerate() {
        filter.push(*v);
        assert_eq!(filter.len(), i + 1);
    }
}

#[test]
fn odd_count_median_is_middle_value() {
    let mut filter = MedianFilter::new(10);
    for v in [30u64, 10, 40] {
        filter.push(v);
    }
    // Sorted samples: 10, 30, 40; the middle one is 30.
    assert_eq!(filter.median(), Some(30));
}

#[test]
fn even_count_median_is_lower_middle_value() {
    let mut filter = MedianFilter::new(10);
    filter.push(10);
    filter.push(20);
    // Sorted samples: 10, 20; the documented tie-break takes the lower.
    assert_eq!(filter.median(), Some(10));
    filter.push(40);
    filter.push(30);
    // Sorted samples: 10, 20, 30, 40; the lower middle is 20.
    assert_eq!(filter.median(), Some(20));
}

#[test]
fn equal_samples_are_all_retained() {
    let mut filter = MedianFilter::new(10);
    for v in [5u64, 5, 5, 5] {
        filter.push(v);
    }
    assert_eq!(filter.len(), 4);
    assert_eq!(filter.median(), Some(5));
}

#[test]
fn eviction_is_oldest_first_independent_of_value() {
    let mut filter = MedianFilter::new(3);
    for v in [1000u64, 1, 2, 3] {
        filter.push(v);
    }
    // The window now holds 1, 2, 3: the huge oldest sample is gone.
    assert_eq!(filter.len(), 3);
    assert_eq!(filter.median(), Some(2));
}

#[test]
fn overfull_run_keeps_exactly_the_most_recent_capacity_samples() {
    let mut filter = MedianFilter::new(3);
    for v in [10u64, 20, 30, 40, 50] {
        filter.push(v);
    }
    // Retained: 30, 40, 50; 10 and 20 are absent.
    assert_eq!(filter.len(), 3);
    assert_eq!(filter.median(), Some(40));
    filter.push(40);
    filter.push(40);
    // Retained: 50, 40, 40.
    assert_eq!(filter.median(), Some(40));
}

#[test]
fn capacity_one_tracks_the_latest_sample() {
    let mut filter = MedianFilter::new(1);
    filter.push(9);
    assert_eq!(filter.median(), Some(9));
    filter.push(2);
    assert_eq!(filter.len(), 1);
    assert_eq!(filter.median(), Some(2));
}

#[test]
fn from_samples_matches_pushing_one_by_one() {
    let samples = vec![4u64, 8, 15, 16, 23, 42];
    let built = MedianFilter::from_samples(4, &samples);
    let mut pushed = MedianFilter::new(4);
    for v in &samples {
        pushed.push(*v);
    }
    assert_eq!(built.len(), pushed.len());
    assert_eq!(built.median(), pushed.median());
    // Window is 15, 16, 23, 42; the lower middle is 16.
    assert_eq!(built.median(), Some(16));
}

#[test]
fn large_window_median() {
    let mut filter = MedianFilter::new(10000);
    for v in 0..1001u64 {
        filter.push(v);
    }
    assert_eq!(filter.len(), 1001);
    assert_eq!(filter.median(), Some(500));
}

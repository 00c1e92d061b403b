use blackheap::analysis::{classify_extrema, cluster_spans};
use blackheap::text::{i32_to_string, join2, join3, replace_all, u64_to_string};

#[test]
fn decimal_rendering() {
    assert_eq!(u64_to_string(0), "0");
    assert_eq!(u64_to_string(7), "7");
    assert_eq!(u64_to_string(10), "10");
    assert_eq!(u64_to_string(4096), "4096");
    assert_eq!(u64_to_string(u64::MAX), u64::MAX.to_string());
    assert_eq!(i32_to_string(0), "0");
    assert_eq!(i32_to_string(-1), "-1");
    assert_eq!(i32_to_string(i32::MIN), i32::MIN.to_string());
    assert_eq!(i32_to_string(i32::MAX), i32::MAX.to_string());
}

#[test]
fn joining() {
    assert_eq!(join2("a", "bc"), "abc");
    assert_eq!(join3("", "x", ""), "x");
}

#[test]
fn replacing_matches_str_replace() {
    let cases = [
        ("aaaa", "aa", "b"),
        ("abcabc", "bc", "XYZ"),
        ("", "a", "b"),
        ("no match", "zz", "q"),
        ("aaa", "aa", "a"),
        ("überstraße", "ß", "ss"),
    ];
    for (s, from, to) in cases {
        assert_eq!(replace_all(s, from, to), s.replace(from, to));
    }
}

#[test]
fn extrema_of_a_two_peak_density() {
    // Samples: 0 1 3 2 1 2 5 4, rising[j] = sample[j] <= sample[j + 1].
    let samples = [0, 1, 3, 2, 1, 2, 5, 4];
    let rising: Vec<bool> = samples.windows(2).map(|w| w[0] <= w[1]).collect();
    let (minima, maxima) = classify_extrema(&rising);
    assert_eq!(maxima, vec![2, 6]);
    assert_eq!(minima, vec![4]);
}

#[test]
fn extrema_of_flat_and_tiny_densities() {
    assert_eq!(classify_extrema(&vec![]), (vec![], vec![]));
    assert_eq!(classify_extrema(&vec![true]), (vec![], vec![]));
    assert_eq!(classify_extrema(&vec![true, true, true]), (vec![], vec![]));
    // A plateau counts as not falling: 3 3 1 has its maximum at the second sample.
    assert_eq!(classify_extrema(&vec![true, false]), (vec![], vec![1]));
    assert_eq!(classify_extrema(&vec![false, true]), (vec![1], vec![]));
}

#[test]
fn clusters_of_a_two_peak_density() {
    // Samples 0 1 3 2 1 2 5 4: maxima at 2 and 6, a minimum at 4.
    let samples = [0, 1, 3, 2, 1, 2, 5, 4];
    let rising: Vec<bool> = samples.windows(2).map(|w| w[0] <= w[1]).collect();
    let (minima, maxima) = classify_extrema(&rising);
    let spans = cluster_spans(&minima, maxima.len(), samples.len() - 1);
    assert_eq!(spans, vec![(0, 4), (4, 7)]);
    for (k, &(left, right)) in spans.iter().enumerate() {
        assert!(left < maxima[k] && maxima[k] < right);
    }
}

#[test]
fn clusters_when_the_density_falls_first() {
    // Samples 3 1 2 0: a minimum at 1, then a maximum at 2; the cluster of
    // that maximum runs from the first sample to the minimum.
    let samples = [3, 1, 2, 0];
    let rising: Vec<bool> = samples.windows(2).map(|w| w[0] <= w[1]).collect();
    let (minima, maxima) = classify_extrema(&rising);
    assert_eq!((minima.clone(), maxima.clone()), (vec![1], vec![2]));
    assert_eq!(cluster_spans(&minima, maxima.len(), samples.len() - 1), vec![(0, 1)]);
    assert_eq!(cluster_spans(&vec![], 1, 9), vec![(0, 9)]);
    assert_eq!(cluster_spans(&vec![2, 5], 0, 9), vec![]);
}

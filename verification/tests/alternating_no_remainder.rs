use alternating_iter::{AlternatingExt, HintedSource, Source, VecSource};

#[test]
fn is_fused() {
    let a = vec![1, 2];
    let b = HintedSource::new(vec![0; 3], usize::MAX, None);

    let mut iter = VecSource::new(a).alternate_with_no_remainder(b);

    assert_eq!(iter.next(), Some(1));
    assert_eq!(iter.next(), Some(0));
    assert_eq!(iter.next(), Some(2));
    assert_eq!(iter.next(), Some(0));
    assert_eq!(iter.next(), None);
    assert_eq!(iter.next(), None);
    assert_eq!(iter.next(), None);
}

#[test]
fn alternating_no_remainder_same_lengths() {
    let a = vec![1, 2];
    let b = vec![3, 4];

    let mut iter = VecSource::new(a).alternate_with_no_remainder(VecSource::new(b));

    assert_eq!(iter.next(), Some(1));
    assert_eq!(iter.next(), Some(3));
    assert_eq!(iter.next(), Some(2));
    assert_eq!(iter.next(), Some(4));
    assert_eq!(iter.next(), None);
}

#[test]
fn alternating_no_remainder_different_lengths_1more() {
    let a = vec![1, 2];
    let b = vec![3, 4, 5];

    let mut iter = VecSource::new(a).alternate_with_no_remainder(VecSource::new(b));

    assert_eq!(iter.next(), Some(1));
    assert_eq!(iter.next(), Some(3));
    assert_eq!(iter.next(), Some(2));
    assert_eq!(iter.next(), Some(4));
    assert_eq!(iter.next(), None);
}

#[test]
fn alternating_no_remainder_different_lengths_2more() {
    let a = vec![1, 2];
    let b = vec![3, 4, 5, 6];

    let mut iter = VecSource::new(a).alternate_with_no_remainder(VecSource::new(b));

    assert_eq!(iter.next(), Some(1));
    assert_eq!(iter.next(), Some(3));
    assert_eq!(iter.next(), Some(2));
    assert_eq!(iter.next(), Some(4));
    assert_eq!(iter.next(), None);
}

#[test]
fn alternating_no_remainder_empty_iterators() {
    let a: Vec<i32> = vec![];
    let b: Vec<i32> = vec![];

    let mut iter = VecSource::new(a).alternate_with_no_remainder(VecSource::new(b));

    assert_eq!(iter.next(), None);
}

#[test]
fn alternating_no_remainder_one_empty_iterator() {
    let a = vec![1, 2, 3];
    let b: Vec<i32> = vec![];

    let mut iter = VecSource::new(a).alternate_with_no_remainder(VecSource::new(b));

    assert_eq!(iter.next(), Some(1));
    assert_eq!(iter.next(), None);
}

#[test]
fn alternating_no_remainder_same_iterator() {
    let a = vec![1, 2, 3];

    let mut iter = VecSource::new(a.clone()).alternate_with_no_remainder(VecSource::new(a));

    assert_eq!(iter.next(), Some(1));
    assert_eq!(iter.next(), Some(1));
    assert_eq!(iter.next(), Some(2));
    assert_eq!(iter.next(), Some(2));
    assert_eq!(iter.next(), Some(3));
    assert_eq!(iter.next(), Some(3));
    assert_eq!(iter.next(), None);
}

#[test]
fn alternating_no_remainder_size_hint_accurate() {
    let a = vec![1, 2, 3];
    let b = vec![4, 5];

    assert_eq!(
        VecSource::new(a.clone()).size_hint().1,
        Some(a.len()),
        "Sanity check failed"
    );
    assert_eq!(
        VecSource::new(b.clone()).size_hint().1,
        Some(b.len()),
        "Sanity check failed"
    );

    let iter = VecSource::new(a).alternate_with_no_remainder(VecSource::new(b));

    assert_eq!(iter.size_hint().1, Some(iter.count()));
}

#[test]
fn alternating_no_remainder_size_hint() {
    let a = vec![1, 2, 3];
    let b = vec![4, 5];

    assert_eq!(
        VecSource::new(a.clone()).size_hint(),
        (3, Some(3)),
        "Sanity check failed"
    );
    assert_eq!(
        VecSource::new(b.clone()).size_hint(),
        (2, Some(2)),
        "Sanity check failed"
    );

    let iter = VecSource::new(a).alternate_with_no_remainder(VecSource::new(b));

    assert_eq!(iter.size_hint(), (5, Some(5)));
    assert_eq!(iter.count(), 5, "Inaccurate size hint");
}

#[test]
fn alternating_no_remainder_size_hint_unbounded_right() {
    let a = vec![1, 2, 3];
    let b = HintedSource::new(vec![0; 10], usize::MAX, None);

    assert_eq!(
        VecSource::new(a.clone()).size_hint(),
        (3, Some(3)),
        "Sanity check failed"
    );
    assert_eq!(b.size_hint(), (usize::MAX, None), "Sanity check failed");

    let iter = VecSource::new(a).alternate_with_no_remainder(b);

    assert_eq!(iter.size_hint(), (6, Some(6)));
    assert_eq!(iter.count(), 6, "Inaccurate size hint");
}

#[test]
fn alternating_no_remainder_size_hint_unbounded_left() {
    let a = HintedSource::new(vec![0; 10], usize::MAX, None);
    let b = vec![1, 2, 3];

    assert_eq!(a.size_hint(), (usize::MAX, None), "Sanity check failed");
    assert_eq!(
        VecSource::new(b.clone()).size_hint(),
        (3, Some(3)),
        "Sanity check failed"
    );

    let iter = a.alternate_with_no_remainder(VecSource::new(b));

    assert_eq!(iter.size_hint(), (7, Some(7)));
    assert_eq!(iter.count(), 7, "Inaccurate size hint");
}

#[test]
fn alternating_no_remainder_size_hint_bound_exceed_max() {
    let a = HintedSource::new(vec![0i32; 0], usize::MAX, Some(usize::MAX));
    let b = HintedSource::new(vec![0i32; 0], usize::MAX, Some(usize::MAX));

    assert_eq!(
        a.size_hint(),
        (usize::MAX, Some(usize::MAX)),
        "Sanity check failed"
    );
    assert_eq!(
        b.size_hint(),
        (usize::MAX, Some(usize::MAX)),
        "Sanity check failed"
    );

    let iter = a.alternate_with_no_remainder(b);

    assert_eq!(iter.size_hint(), (usize::MAX, None));
}

#[test]
fn alternating_no_remainder_size_hint_bound_half_max_left() {
    let a = HintedSource::new(vec![0i32; 0], usize::MAX / 2, Some(usize::MAX / 2));
    let b = HintedSource::new(vec![0i32; 0], usize::MAX / 2 + 1, Some(usize::MAX / 2 + 1));

    assert_eq!(
        a.size_hint(),
        (usize::MAX / 2, Some(usize::MAX / 2)),
        "Sanity check failed"
    );
    assert_eq!(
        b.size_hint(),
        (usize::MAX / 2 + 1, Some(usize::MAX / 2 + 1)),
        "Sanity check failed"
    );

    let iter = a.alternate_with_no_remainder(b);

    assert_eq!(iter.size_hint(), (usize::MAX - 1, Some(usize::MAX - 1)));
}

#[test]
fn alternating_no_remainder_size_hint_bound_half_max_right() {
    let a = HintedSource::new(vec![0i32; 0], usize::MAX / 2 + 1, Some(usize::MAX / 2 + 1));
    let b = HintedSource::new(vec![0i32; 0], usize::MAX / 2, Some(usize::MAX / 2));

    assert_eq!(
        a.size_hint(),
        (usize::MAX / 2 + 1, Some(usize::MAX / 2 + 1)),
        "Sanity check failed"
    );
    assert_eq!(
        b.size_hint(),
        (usize::MAX / 2, Some(usize::MAX / 2)),
        "Sanity check failed"
    );

    let iter = a.alternate_with_no_remainder(b);

    assert_eq!(iter.size_hint(), (usize::MAX, Some(usize::MAX)));
}

#[test]
fn alternating_no_remainder_size_hint_both_unbounded() {
    let a = HintedSource::new(vec![0; 4], usize::MAX, None);
    let b = HintedSource::new(vec![0; 4], usize::MAX, None);

    assert_eq!(a.size_hint(), (usize::MAX, None), "Sanity check failed");
    assert_eq!(b.size_hint(), (usize::MAX, None), "Sanity check failed");

    let iter = a.alternate_with_no_remainder(b);

    assert_eq!(iter.size_hint(), (usize::MAX, None));
}

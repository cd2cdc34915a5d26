use rustkell::Rustkell;
use rustkell::SliceSource;
use rustkell::Source;
use rustkell::VecSource;

#[test]
fn tails() {
    let v = vec![1, 2, 3, 4, 5];
    let mut t = VecSource::new(v).tails();
    let p = t.next().unwrap().into_vec();
    assert_eq!(p, vec![1, 2, 3, 4, 5]);
    let p = t.next().unwrap().into_vec();
    assert_eq!(p, vec![2, 3, 4, 5]);
    let p = t.next().unwrap().into_vec();
    assert_eq!(p, vec![3, 4, 5]);
    let p = t.next().unwrap().into_vec();
    assert_eq!(p, vec![4, 5]);
    let p = t.next().unwrap().into_vec();
    assert_eq!(p, vec![5]);
    let p = t.next().unwrap().into_vec();
    assert!(p.is_empty());

    let h: Vec<String> = Vec::new();
    let _ = VecSource::new(h).tails();

    let dq: Vec<i32> = Vec::new();
    let _ = SliceSource::new(&dq).tails();
}

#[test]
fn pairs() {
    let v = vec![1, 2, 3, 4, 5];
    let p = SliceSource::new(&v).pairs().into_vec();
    assert_eq!(p.len(), 4);
    assert_eq!(p[0], (1, 2));
    assert_eq!(p[1], (2, 3));
    assert_eq!(p[2], (3, 4));
    assert_eq!(p[3], (4, 5));

    let v = vec![1, 2, 3, 4, 5];
    let p = VecSource::new(v).pairs().into_vec();
    assert_eq!(p.len(), 4);
    assert_eq!(p[0], (1, 2));
    assert_eq!(p[1], (2, 3));
    assert_eq!(p[2], (3, 4));
    assert_eq!(p[3], (4, 5));

    let v = vec![1];
    let p = SliceSource::new(&v).pairs().into_vec();
    assert!(p.is_empty());

    let v: Vec<String> = Vec::new();
    let p = SliceSource::new(&v).pairs().into_vec();
    assert!(p.is_empty());

    let v = vec!["hello".to_owned(), "world".to_owned()];
    let p = VecSource::new(v).pairs().into_vec();
    assert_eq!(p[0], ("hello".to_owned(), "world".to_owned()));
}

#[test]
fn tails_of_four_elements() {
    let v = vec![1, 2, 3, 4];
    let mut t = VecSource::new(v).tails();
    let expected = vec![
        vec![1, 2, 3, 4],
        vec![2, 3, 4],
        vec![3, 4],
        vec![4],
        vec![],
    ];
    let mut produced: Vec<Vec<i32>> = Vec::new();
    while let Some(tl) = t.next() {
        produced.push(tl.into_vec());
    }
    assert_eq!(produced, expected);
}

#[test]
fn pairs_of_four_elements() {
    let v = vec![1, 2, 3, 4];
    let p = VecSource::new(v).pairs().into_vec();
    assert_eq!(p, vec![(1, 2), (2, 3), (3, 4)]);
}

#[test]
fn tails_and_pairs_of_empty() {
    let v: Vec<i32> = Vec::new();
    let mut t = VecSource::new(v).tails();
    let first = t.next().unwrap().into_vec();
    assert!(first.is_empty());
    assert!(t.next().is_none());

    let v: Vec<i32> = Vec::new();
    let p = VecSource::new(v).pairs().into_vec();
    assert!(p.is_empty());
}

#[test]
fn tails_and_pairs_of_one_element() {
    let v = vec![1];
    let mut t = VecSource::new(v).tails();
    assert_eq!(t.next().unwrap().into_vec(), vec![1]);
    assert!(t.next().unwrap().into_vec().is_empty());
    assert!(t.next().is_none());

    let v = vec![1];
    let p = VecSource::new(v).pairs().into_vec();
    assert!(p.is_empty());
}

#[test]
fn exhaustion_is_idempotent() {
    let v = vec![1, 2];
    let mut t = VecSource::new(v).tails();
    let mut last = t.next().unwrap();
    while let Some(tl) = t.next() {
        last = tl;
    }
    assert!(t.next().is_none());
    assert!(t.next().is_none());
    assert!(t.next().is_none());

    // `last` is the empty suffix; it keeps producing nothing.
    assert!(last.next().is_none());
    assert!(last.next().is_none());

    // A drained non-empty suffix also keeps producing nothing.
    let v = vec![5, 6];
    let mut t = VecSource::new(v).tails();
    let mut tl = t.next().unwrap();
    assert_eq!(tl.next(), Some(5));
    assert_eq!(tl.next(), Some(6));
    assert!(tl.next().is_none());
    assert!(tl.next().is_none());

    let v = vec![1, 2];
    let mut p = VecSource::new(v).pairs();
    assert_eq!(p.next(), Some((1, 2)));
    assert!(p.next().is_none());
    assert!(p.next().is_none());
    assert!(p.next().is_none());
}

#[test]
fn suffix_views_are_independent() {
    let v = vec![1, 2, 3];
    let mut t = VecSource::new(v).tails();
    let first = t.next().unwrap();
    let mut second = t.next().unwrap();

    // Drain the second view completely ...
    assert_eq!(second.into_vec(), vec![2, 3]);

    // ... the first view, produced earlier, is unaffected ...
    assert_eq!(first.into_vec(), vec![1, 2, 3]);

    // ... and so are views produced later.
    second = t.next().unwrap();
    assert_eq!(second.into_vec(), vec![3]);
}

#[test]
fn duplicate_advances_independently() {
    let v = vec![10, 20, 30];
    let src = VecSource::new(v);
    let mut a = src.duplicate();
    let mut b = src;
    assert_eq!(a.next(), Some(10));
    assert_eq!(a.next(), Some(20));
    assert_eq!(b.next(), Some(10));
    assert_eq!(a.next(), Some(30));
    assert!(a.next().is_none());
    assert_eq!(b.next(), Some(20));
    assert_eq!(b.next(), Some(30));
    assert!(b.next().is_none());
}

#[test]
fn pairs_of_strings() {
    let v = vec!["a".to_owned(), "b".to_owned()];
    let p = VecSource::new(v).pairs().into_vec();
    assert_eq!(p, vec![("a".to_owned(), "b".to_owned())]);
}

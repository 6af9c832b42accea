use two_head_vec::two_head_vec::{TwoHeadVec, TwoHeadVecError};

#[test]
fn test_push_two_elements_succesful() {
    let mut v = TwoHeadVec::new(2).unwrap();

    assert_eq!(v.push('a'), Ok(()));
    assert_eq!(v.push('b'), Ok(()));
}

#[test]
fn two_head_vec_push_two_elements_succesful() {
    let mut v = TwoHeadVec::new(2).unwrap();

    assert_eq!(v.push('a'), Ok(()));
    assert_eq!(v.push('b'), Ok(()));
}

#[test]
fn zero_capacity_is_rejected() {
    assert!(matches!(
        TwoHeadVec::<char>::new(0),
        Err(TwoHeadVecError::InvalidCapacity)
    ));
}

#[test]
fn capacity_two_scenario() {
    let mut v = TwoHeadVec::new(2).unwrap();

    assert_eq!(v.push('a'), Ok(()));
    assert_eq!(v.push('b'), Ok(()));
    assert_eq!(v.get(0), Ok('a'));
    assert_eq!(v.get(1), Ok('b'));
    assert_eq!(v.push('c'), Err('c'));
}

#[test]
fn first_capacity_appends_succeed_then_full() {
    let mut v = TwoHeadVec::new(4).unwrap();

    for i in 0..4u64 {
        assert_eq!(v.push(i), Ok(()));
    }
    assert_eq!(v.push(99), Err(99));
    // The rejected append changed nothing: the content is still intact.
    for i in 0..4u64 {
        assert_eq!(v.get(i as usize), Ok(i));
    }
}

#[test]
fn read_your_writes() {
    let mut v = TwoHeadVec::new(3).unwrap();

    assert_eq!(v.push(7u64), Ok(()));
    assert_eq!(v.get(0), Ok(7));
    assert_eq!(v.push(8u64), Ok(()));
    assert_eq!(v.get(1), Ok(8));
    assert_eq!(v.push(9u64), Ok(()));
    assert_eq!(v.get(2), Ok(9));
}

#[test]
fn lookup_past_length_reports_index() {
    let mut v = TwoHeadVec::new(3).unwrap();

    assert_eq!(v.get(0), Err(0));
    assert_eq!(v.push('x'), Ok(()));
    assert_eq!(v.get(0), Ok('x'));
    assert_eq!(v.get(1), Err(1));
    assert_eq!(v.get(5), Err(5));
}

#[test]
fn repeated_lookups_agree() {
    let mut v = TwoHeadVec::new(2).unwrap();

    assert_eq!(v.push('a'), Ok(()));
    assert_eq!(v.push('b'), Ok(()));
    let first = v.get(1);
    let second = v.get(1);
    let third = v.get(1);
    assert_eq!(first, second);
    assert_eq!(second, third);
    assert_eq!(first, Ok('b'));
}

#[test]
fn ten_tagged_appends_all_retrievable_exactly_once() {
    let count: usize = 10;
    let mut v = TwoHeadVec::new(count).unwrap();

    // Each value encodes its own identity, so a torn or fabricated readout
    // would show up as a tag that was never appended.
    for i in 0..count {
        assert_eq!(v.push(100u64 + i as u64), Ok(()));
    }

    let mut seen: Vec<u64> = Vec::new();
    for i in 0..count {
        let got = v.get(i).unwrap();
        assert!((100..100 + count as u64).contains(&got));
        seen.push(got);
    }
    seen.sort();
    let expected: Vec<u64> = (0..count as u64).map(|i| 100 + i).collect();
    assert_eq!(seen, expected);
}

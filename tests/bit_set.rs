use usbcore::bit_set::BitSet;
use usbcore::error::Error;

fn collect(set: &BitSet) -> Vec<usize> {
    let mut it = set.iter();
    let mut out = Vec::new();
    while let Some(v) = it.next() {
        out.push(v);
    }
    out
}

#[test]
fn it_checks_capacity() {
    let mut set = BitSet::with_capacity(256);

    assert!(matches!(set.contains(123), Ok(false)));
    assert!(matches!(set.contains(456), Err(Error::Overflow)));

    assert!(matches!(set.insert(123), Ok(_)));
    assert!(matches!(set.insert(456), Err(Error::Overflow)));

    assert!(matches!(set.remove(123), Ok(_)));
    assert!(matches!(set.remove(456), Err(Error::Overflow)));
}

#[test]
fn it_inserts() {
    let mut set = BitSet::with_capacity(256);

    assert!(matches!(set.contains(123), Ok(false)));
    assert!(matches!(set.insert(123), Ok(())));
    assert!(matches!(set.contains(123), Ok(true)));
}

#[test]
fn it_inserts_existing() {
    let mut set = BitSet::with_capacity(256);
    set.insert(123).unwrap();

    assert!(matches!(set.contains(123), Ok(true)));
    assert!(matches!(set.insert(123), Ok(())));
    assert!(matches!(set.contains(123), Ok(true)));
}

#[test]
fn it_removes() {
    let mut set = BitSet::with_capacity(256);
    set.insert(123).unwrap();

    assert!(matches!(set.contains(123), Ok(true)));
    assert!(matches!(set.remove(123), Ok(())));
    assert!(matches!(set.contains(123), Ok(false)));
}

#[test]
fn it_removes_nonexistent() {
    let mut set = BitSet::with_capacity(256);

    assert!(matches!(set.contains(123), Ok(false)));
    assert!(matches!(set.remove(123), Ok(())));
    assert!(matches!(set.contains(123), Ok(false)));
}

#[test]
fn it_iterates() {
    let mut set = BitSet::with_capacity(256);

    let data: Vec<usize> = collect(&set);
    assert_eq!(data, Vec::<usize>::new());

    set.insert(1).unwrap();
    set.insert(12).unwrap();
    set.insert(123).unwrap();
    set.insert(255).unwrap();
    set.insert(512).unwrap_err();

    let data: Vec<usize> = collect(&set);
    assert_eq!(data, [1, 12, 123, 255]);
}

#[test]
fn bit_set_of_zero_capacity_holds_nothing() {
    let mut set = BitSet::with_capacity(0);
    assert_eq!(set.contains(0), Err(Error::Overflow));
    assert_eq!(set.insert(0), Err(Error::Overflow));
    assert_eq!(collect(&set), Vec::<usize>::new());
}

#[test]
fn bit_set_edges_of_a_partial_word() {
    let mut set = BitSet::with_capacity(33);
    assert_eq!(set.insert(32), Ok(()));
    assert_eq!(set.insert(0), Ok(()));
    assert_eq!(set.insert(31), Ok(()));
    assert_eq!(set.insert(33), Err(Error::Overflow));
    assert_eq!(collect(&set), vec![0, 31, 32]);
    assert_eq!(set.remove(31), Ok(()));
    assert_eq!(collect(&set), vec![0, 32]);
}

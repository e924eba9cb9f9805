use order_status::{get_ordering, Verdict};

#[test]
fn display_names() {
    assert_eq!(Verdict::Undefined.to_string(), "undefined");
    assert_eq!(Verdict::Equal.to_string(), "equal");
    assert_eq!(Verdict::Ascending.to_string(), "ascending");
    assert_eq!(Verdict::Descending.to_string(), "descending");
    assert_eq!(Verdict::Unsorted.to_string(), "unsorted");
}

#[test]
fn borrowed_names_match_owned_names() {
    let all = [
        Verdict::Undefined,
        Verdict::Equal,
        Verdict::Ascending,
        Verdict::Descending,
        Verdict::Unsorted,
    ];
    for v in all {
        assert_eq!(v.as_str(), v.to_string());
    }
}

#[test]
fn names_are_distinct() {
    let all = [
        Verdict::Undefined,
        Verdict::Equal,
        Verdict::Ascending,
        Verdict::Descending,
        Verdict::Unsorted,
    ];
    for (i, a) in all.iter().enumerate() {
        for (j, b) in all.iter().enumerate() {
            assert_eq!(i == j, a.as_str() == b.as_str());
            assert_eq!(i == j, a == b);
        }
    }
}

#[test]
fn name_of_a_computed_verdict() {
    assert_eq!(get_ordering(&[1, 2, 3]).to_string(), "ascending");
    assert_eq!(get_ordering(&[3, 2, 1]).as_str(), "descending");
    assert_eq!(get_ordering::<u8>(&[]).as_str(), "undefined");
}

#[test]
fn verdicts_can_be_copied_and_printed() {
    let v = Verdict::Ascending;
    let w = v;
    assert_eq!(v, w);
    assert_eq!(format!("{:?}", v.clone()), "Ascending");
}

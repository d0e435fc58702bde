use hglib::version::Version;

#[test]
fn test_compare() {
    let x = Version::from_tuple(&(1, 2, Some(3)));
    assert!(x > Version::from_tuple(&(0, 5, Some(5))));
    assert!(x > Version::from_tuple(&(1, 0, Some(5))));
    assert!(x > Version::from_tuple(&(1, 2, Some(0))));
    assert!(x > Version::from_tuple(&(1, 2, None)));

    assert!(Version::from_tuple(&(0, 5, Some(5))) < x);
    assert!(Version::from_tuple(&(1, 0, Some(5))) < x);
    assert!(Version::from_tuple(&(1, 2, Some(0))) < x);
    assert!(Version::from_tuple(&(1, 2, None)) < x);

    let x = Version::from_tuple(&(1, 2, None));
    assert!(!(Version::from_tuple(&(1, 2, Some(0))) < x));
    assert!(!(Version::from_tuple(&(1, 2, Some(0))) > x));
}

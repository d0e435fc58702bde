use hglib::common::eatlines;

#[test]
fn test_eatlines() {
    let s = "rust
is
an
amazing
programming
language";
    let s = s.as_bytes();
    let r = eatlines(s, 1);
    assert!(&r[..2] == b"is");

    let r = eatlines(s, 2);
    assert!(&r[..2] == b"an");

    let r = eatlines(s, 4);
    assert!(&r[..2] == b"pr");
}

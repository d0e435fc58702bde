use hglib::branches;
use hglib::Playback;

#[test]
fn branches_test_empty() {
    let mut server = Playback::new();
    server.feed_result(0);
    assert_eq!(
        branches::branches(&mut server, branches::Arg::default()).unwrap(),
        Vec::new()
    );
}

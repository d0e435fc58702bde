use hglib::add;
use hglib::mv;
use hglib::Playback;

#[test]
fn move_test_basic() {
    let mut server = Playback::new();
    server.feed_result(0);
    let x = add::Arg {
        files: &["a"],
        ..Default::default()
    };
    assert!(add::add(&mut server, x).is_ok());

    server.feed_result(0);
    let x = mv::Arg {
        source: "a",
        dest: "b",
        ..Default::default()
    };
    assert!(mv::mv(&mut server, x).is_ok());
}

use hglib::add;
use hglib::forget;
use hglib::Playback;

#[test]
fn forget_test_basic() {
    let mut server = Playback::new();
    server.feed_result(0);
    let x = add::Arg {
        files: &["a"],
        ..Default::default()
    };
    add::add(&mut server, x).unwrap();

    server.feed_result(0);
    let x = forget::Arg {
        files: &["a"],
        ..Default::default()
    };
    assert!(forget::forget(&mut server, x).unwrap());
}

#[test]
fn forget_test_warnings() {
    let mut server = Playback::new();
    server.feed_output(&b"not removing a: file is already untracked\n".to_vec());
    server.feed_result(1);
    let x = forget::Arg {
        files: &["a"],
        ..Default::default()
    };
    assert!(!forget::forget(&mut server, x).unwrap());

    server.feed_result(0);
    let x = add::Arg {
        files: &["a"],
        ..Default::default()
    };
    add::add(&mut server, x).unwrap();

    server.feed_output(&b"b: no such file in rev 000000000000\n".to_vec());
    server.feed_result(1);
    let x = forget::Arg {
        files: &["a", "b"],
        ..Default::default()
    };
    assert!(!forget::forget(&mut server, x).unwrap());
}

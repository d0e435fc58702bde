use hglib::remove;
use hglib::Playback;

fn feed_commit(server: &mut Playback, rev: u64, node: &str) {
    let line = format!("committed changeset {}:{}\n", rev, node);
    server.feed_output(&line.into_bytes());
    server.feed_result(0);
}

fn commit_ok(server: &mut Playback, message: &str) {
    let x = hglib::commit::Arg {
        message,
        addremove: true,
        ..Default::default()
    };
    assert!(hglib::commit::commit(server, x).is_ok());
}

#[test]
fn remove_test_basic() {
    let mut server = Playback::new();
    feed_commit(&mut server, 0, "0123456789abcdef0123456789abcdef01234567");
    commit_ok(&mut server, "first");

    server.feed_result(0);
    let x = remove::Arg {
        files: &["a"],
        ..Default::default()
    };
    assert!(remove::remove(&mut server, x).is_ok());
}

#[test]
fn remove_test_warnings() {
    let mut server = Playback::new();
    feed_commit(&mut server, 0, "0123456789abcdef0123456789abcdef01234567");
    commit_ok(&mut server, "first");

    server.feed_output(&b"b: no such file in rev 0123456789ab\n".to_vec());
    server.feed_result(1);
    let x = remove::Arg {
        files: &["a", "b"],
        ..Default::default()
    };
    assert_eq!(remove::remove(&mut server, x).unwrap(), false);
}

use hglib::bundle;
use hglib::clone;
use hglib::Playback;

fn feed_commit(server: &mut Playback, rev: u64, node: &str) {
    let line = format!("committed changeset {}:{}\n", rev, node);
    server.feed_output(&line.into_bytes());
    server.feed_result(0);
}

fn commit_ok(server: &mut Playback, message: &str) {
    let x = hglib::commit::Arg {
        message,
        addremove: true,
        ..Default::default()
    };
    assert!(hglib::commit::commit(server, x).is_ok());
}

#[test]
fn test_no_changes() {
    let mut server = Playback::new();
    feed_commit(&mut server, 0, "0123456789abcdef0123456789abcdef01234567");
    commit_ok(&mut server, "first");

    server.feed_output(&b"no changes found\n".to_vec());
    server.feed_result(1);
    let x = bundle::Arg {
        file: "bundle",
        destrepo: ".",
        ..Default::default()
    };
    assert!(!bundle::bundle(&mut server, x).unwrap());
}

#[test]
fn bundle_test_basic() {
    let mut server = Playback::new();
    feed_commit(&mut server, 0, "0123456789abcdef0123456789abcdef01234567");
    commit_ok(&mut server, "first");

    server.feed_result(0);
    let x = clone::Arg {
        dest: "other",
        ..Default::default()
    };
    assert!(clone::clone(&mut server, x).is_ok());

    feed_commit(&mut server, 1, "fedcba9876543210fedcba9876543210fedcba98");
    commit_ok(&mut server, "second");

    server.feed_result(0);
    let x = bundle::Arg {
        file: "bundle",
        destrepo: "other",
        ..Default::default()
    };
    assert!(bundle::bundle(&mut server, x).unwrap());
}

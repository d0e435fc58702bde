use hglib::branch;
use hglib::heads;
use hglib::tip;
use hglib::Playback;

fn feed_commit(server: &mut Playback, rev: u64, node: &str) {
    let line = format!("committed changeset {}:{}\n", rev, node);
    server.feed_output(&line.into_bytes());
    server.feed_result(0);
}

fn commit(server: &mut Playback, message: &str) -> hglib::commit::Commit {
    let x = hglib::commit::Arg {
        message,
        addremove: true,
        ..Default::default()
    };
    hglib::commit::commit(server, x).unwrap()
}

#[test]
fn heads_test_empty() {
    let mut server = Playback::new();
    server.feed_result(1);
    assert!(heads::heads(&mut server, heads::Arg::default())
        .unwrap()
        .is_empty());
}

#[test]
fn heads_test_warnings() {
    let mut server = Playback::new();
    let node0 = "0123456789abcdef0123456789abcdef01234567";
    feed_commit(&mut server, 0, node0);
    let rev0 = commit(&mut server, "first");

    let record = format!(
        "0\x00{}\x00tip\x00default\x00test\x00first\x001443827606.0-3600\x00",
        node0
    );
    server.feed_output(&record.clone().into_bytes());
    server.feed_result(0);
    server.feed_output(&record.into_bytes());
    server.feed_result(0);
    assert_eq!(
        heads::heads(&mut server, heads::Arg::default()).unwrap(),
        vec![tip::tip(&mut server, tip::Arg::default()).unwrap()]
    );

    server.feed_result(0);
    let x = branch::Arg {
        name: "foo",
        ..Default::default()
    };
    branch::branch(&mut server, x).unwrap();

    feed_commit(&mut server, 1, "fedcba9876543210fedcba9876543210fedcba98");
    let _ = commit(&mut server, "second");

    server.feed_result(1);
    let x = heads::Arg {
        rev: &[&rev0.node],
        topological: true,
        ..Default::default()
    };
    assert!(heads::heads(&mut server, x).unwrap().is_empty());
}

use hglib::parents;
use hglib::Playback;

fn feed_commit(server: &mut Playback, rev: u64, node: &str) {
    let line = format!("committed changeset {}:{}\n", rev, node);
    server.feed_output(&line.into_bytes());
    server.feed_result(0);
}

#[test]
fn test_noparents() {
    let mut server = Playback::new();
    server.feed_result(0);
    assert_eq!(
        parents::parents(&mut server, parents::Arg::default())
            .unwrap()
            .len(),
        0
    );
}

#[test]
fn parents_test_basic() {
    let mut server = Playback::new();
    let node = "0123456789abcdef0123456789abcdef01234567";
    feed_commit(&mut server, 0, node);
    let x = hglib::commit::Arg {
        message: "first",
        addremove: true,
        ..Default::default()
    };
    let commit = hglib::commit::commit(&mut server, x).unwrap();

    let record = format!(
        "0\x00{}\x00tip\x00default\x00test\x00first\x001443827606.0-3600\x00",
        node
    );
    server.feed_output(&record.clone().into_bytes());
    server.feed_result(0);
    assert_eq!(
        commit.node,
        parents::parents(&mut server, parents::Arg::default()).unwrap()[0].node
    );

    server.feed_output(&record.into_bytes());
    server.feed_result(0);
    let x = parents::Arg {
        file: "a",
        ..Default::default()
    };
    assert_eq!(commit.node, parents::parents(&mut server, x).unwrap()[0].node);
}

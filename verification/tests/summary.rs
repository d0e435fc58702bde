use hglib::phase;
use hglib::summary;
use hglib::version;
use hglib::Playback;

fn feed_commit(server: &mut Playback, rev: u64, node: &str) {
    let line = format!("committed changeset {}:{}\n", rev, node);
    server.feed_output(&line.into_bytes());
    server.feed_result(0);
}

#[test]
fn test_secret_commit_clean() {
    let mut server = Playback::new();
    server.feed_output(&b"Mercurial Distributed SCM (version 5.2)\n".to_vec());
    server.feed_result(0);
    let version = version::version(&mut server, version::Arg::default()).unwrap();
    if version.major < 2 || (version.major == 2 && version.minor < 1) {
        return;
    }

    feed_commit(&mut server, 0, "0123456789abcdef0123456789abcdef01234567");
    let x = hglib::commit::Arg {
        message: "first",
        addremove: true,
        ..Default::default()
    };
    let c0 = hglib::commit::commit(&mut server, x).unwrap();

    server.feed_result(0);
    let x = phase::Arg {
        revs: &[&c0.rev.to_string()],
        secret: true,
        force: true,
        ..Default::default()
    };
    phase::phase(&mut server, x).unwrap();

    server.feed_output(
        &b"parent: 0:0123456789ab tip\n first\nbranch: default\ncommit: (clean) (secret)\nupdate: (current)\n"
            .to_vec(),
    );
    server.feed_result(0);
    let e = summary::summary(&mut server, summary::Arg::default()).unwrap();

    assert!(e.commit);
}

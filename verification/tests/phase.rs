use hglib::phase;
use hglib::Playback;

fn feed_commit(server: &mut Playback, rev: u64, node: &str) {
    let line = format!("committed changeset {}:{}\n", rev, node);
    server.feed_output(&line.into_bytes());
    server.feed_result(0);
}

fn commit(server: &mut Playback, message: &str) -> hglib::commit::Commit {
    let x = hglib::commit::Arg {
        message,
        addremove: true,
        ..Default::default()
    };
    hglib::commit::commit(server, x).unwrap()
}

#[test]
fn phase_test_basic() {
    let mut server = Playback::new();
    feed_commit(&mut server, 0, "0123456789abcdef0123456789abcdef01234567");
    let commit = commit(&mut server, "first");

    server.feed_output(&b"0: draft\n".to_vec());
    server.feed_result(0);
    let x = phase::Arg {
        revs: &[&commit.node],
        ..Default::default()
    };
    let phases = phase::phase(&mut server, x).unwrap().unwrap();
    assert_eq!(phases[0].num, 0);
    assert_eq!(phases[0].phase, "draft");

    server.feed_output(&b"0: draft\n".to_vec());
    server.feed_result(0);
    let phases = phase::phase(&mut server, phase::Arg::default())
        .unwrap()
        .unwrap();
    assert_eq!(phases[0].num, 0);
    assert_eq!(phases[0].phase, "draft");
}

#[test]
fn test_public() {
    let mut server = Playback::new();
    feed_commit(&mut server, 0, "0123456789abcdef0123456789abcdef01234567");
    let commit = commit(&mut server, "first");

    server.feed_result(0);
    let x = phase::Arg {
        revs: &[&commit.node],
        public: true,
        ..Default::default()
    };
    assert!(phase::phase(&mut server, x).is_ok());

    server.feed_output(&b"0: public\n".to_vec());
    server.feed_result(0);
    let x = phase::Arg {
        revs: &[&commit.node],
        ..Default::default()
    };
    assert_eq!(
        phase::phase(&mut server, x).unwrap(),
        Some(vec![phase::Phase {
            num: 0,
            phase: "public".to_string(),
        }])
    );
}

#[test]
fn test_secret() {
    let mut server = Playback::new();
    feed_commit(&mut server, 0, "0123456789abcdef0123456789abcdef01234567");
    let commit = commit(&mut server, "first");

    server.feed_result(0);
    let x = phase::Arg {
        revs: &[&commit.node],
        public: true,
        ..Default::default()
    };
    assert!(phase::phase(&mut server, x).is_ok());

    server.feed_result(0);
    let x = phase::Arg {
        revs: &[&commit.node],
        secret: true,
        force: true,
        ..Default::default()
    };
    assert!(phase::phase(&mut server, x).is_ok());

    server.feed_output(&b"0: secret\n".to_vec());
    server.feed_result(0);
    let x = phase::Arg {
        revs: &[&commit.node],
        ..Default::default()
    };
    assert_eq!(
        phase::phase(&mut server, x).unwrap(),
        Some(vec![phase::Phase {
            num: 0,
            phase: "secret".to_string(),
        }])
    );
}

#[test]
fn test_multiple() {
    let mut server = Playback::new();
    feed_commit(&mut server, 0, "0123456789abcdef0123456789abcdef01234567");
    let commit0 = commit(&mut server, "a");

    server.feed_result(0);
    let x = phase::Arg {
        revs: &[&commit0.node],
        public: true,
        ..Default::default()
    };
    assert!(phase::phase(&mut server, x).is_ok());

    feed_commit(&mut server, 1, "fedcba9876543210fedcba9876543210fedcba98");
    let commit1 = commit(&mut server, "b");

    feed_commit(&mut server, 2, "aaaabbbbccccddddeeeeffff0000111122223333");
    let commit2 = commit(&mut server, "c");

    server.feed_result(0);
    let x = phase::Arg {
        revs: &[&commit2.node],
        secret: true,
        force: true,
        ..Default::default()
    };
    assert!(phase::phase(&mut server, x).is_ok());

    server.feed_output(&b"0: public\n2: secret\n1: draft\n".to_vec());
    server.feed_result(0);
    let x = phase::Arg {
        revs: &[&commit0.node, &commit2.node, &commit1.node],
        ..Default::default()
    };
    assert_eq!(
        phase::phase(&mut server, x).unwrap(),
        Some(vec![
            phase::Phase {
                num: 0,
                phase: "public".to_string()
            },
            phase::Phase {
                num: 2,
                phase: "secret".to_string()
            },
            phase::Phase {
                num: 1,
                phase: "draft".to_string()
            },
        ])
    );
}

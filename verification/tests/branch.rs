use hglib::branch;
use hglib::NoPrompt;
use hglib::Playback;

fn feed_commit(server: &mut Playback, rev: u64, node: &str) {
    let line = format!("committed changeset {}:{}\n", rev, node);
    server.feed_output(&line.into_bytes());
    server.feed_result(0);
}

fn commit_ok(server: &mut Playback, message: &str) {
    let x = hglib::commit::Arg {
        message,
        addremove: true,
        ..Default::default()
    };
    assert!(hglib::commit::commit(server, x).is_ok());
}

#[test]
fn branch_test_empty() {
    let mut server = Playback::new();
    server.feed_output(&b"default\n".to_vec());
    server.feed_result(0);
    assert_eq!(
        branch::branch(&mut server, branch::Arg::default()).unwrap(),
        "default".to_string()
    );
}

#[test]
fn test_reset_with_name() {
    let mut server = Playback::new();
    let x = branch::Arg {
        name: "foo",
        clean: true,
        ..Default::default()
    };
    assert!(branch::branch(&mut server, x).is_err());
}

#[test]
fn test_reset() {
    let mut server = Playback::new();
    server.feed_result(0);
    let x = branch::Arg {
        name: "foo",
        ..Default::default()
    };
    assert!(branch::branch(&mut server, x).is_ok());
    server.feed_output(&b"reset working directory to branch default\n".to_vec());
    server.feed_result(0);
    let x = branch::Arg {
        clean: true,
        ..Default::default()
    };
    assert_eq!(
        branch::branch(&mut server, x).unwrap(),
        "default".to_string()
    );
}

#[test]
fn test_exists() {
    let mut server = Playback::new();
    feed_commit(&mut server, 0, "0123456789abcdef0123456789abcdef01234567");
    commit_ok(&mut server, "first");
    server.feed_result(0);
    let x = branch::Arg {
        name: "foo",
        ..Default::default()
    };
    assert!(branch::branch(&mut server, x).is_ok());

    feed_commit(&mut server, 1, "fedcba9876543210fedcba9876543210fedcba98");
    commit_ok(&mut server, "second");

    // a branch that already exists is refused by the server
    server.feed_error(&b"abort: a branch of the same name already exists\n".to_vec());
    server.feed_result(255);
    let x = branch::Arg {
        name: "default",
        ..Default::default()
    };
    assert!(branch::branch(&mut server, x).is_err());
}

#[test]
fn test_force() {
    let mut server = Playback::new();
    feed_commit(&mut server, 0, "0123456789abcdef0123456789abcdef01234567");
    commit_ok(&mut server, "first");
    server.feed_result(0);
    let x = branch::Arg {
        name: "foo",
        ..Default::default()
    };
    assert!(branch::branch(&mut server, x).is_ok());

    feed_commit(&mut server, 1, "fedcba9876543210fedcba9876543210fedcba98");
    commit_ok(&mut server, "second");

    server.feed_error(&b"abort: a branch of the same name already exists\n".to_vec());
    server.feed_result(255);
    let x = branch::Arg {
        name: "default",
        ..Default::default()
    };
    assert!(branch::branch(&mut server, x).is_err());

    server.feed_result(0);
    let x = branch::Arg {
        name: "default",
        force: true,
        ..Default::default()
    };
    assert_eq!(
        branch::branch(&mut server, x).unwrap(),
        "default".to_string()
    );
}

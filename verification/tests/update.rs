use hglib::commit::{self, Commit};
use hglib::parents;
use hglib::status::{self, Code, Status};
use hglib::update::{self, Update};
use hglib::Playback;

fn feed_commit(server: &mut Playback, rev: u64, node: &str) {
    let line = format!("committed changeset {}:{}\n", rev, node);
    server.feed_output(&line.into_bytes());
    server.feed_result(0);
}

fn feed_update(server: &mut Playback, updated: u32, merged: u32, removed: u32, unresolved: u32) {
    let line = format!(
        "{} files updated, {} files merged, {} files removed, {} files unresolved\n",
        updated, merged, removed, unresolved
    );
    server.feed_output(&line.into_bytes());
    server.feed_result(0);
}

fn commit(server: &mut Playback, message: &str, addremove: bool) -> Commit {
    let x = commit::Arg {
        message,
        addremove,
        ..Default::default()
    };
    commit::commit(server, x).unwrap()
}

fn set_up(server: &mut Playback) -> (Commit, Commit) {
    feed_commit(server, 0, "0123456789abcdef0123456789abcdef01234567");
    let commit0 = commit(server, "first", true);
    feed_commit(server, 1, "fedcba9876543210fedcba9876543210fedcba98");
    let commit1 = commit(server, "second", false);
    (commit0, commit1)
}

#[test]
fn update_test_basic() {
    let mut server = Playback::new();
    let (c0, _) = set_up(&mut server);

    feed_update(&mut server, 1, 0, 0, 0);
    let x = update::Arg {
        rev: &c0.rev.to_string(),
        ..Default::default()
    };
    assert_eq!(
        update::update(&mut server, x).unwrap(),
        Update {
            updated: 1,
            merged: 0,
            removed: 0,
            unresolved: 0,
        }
    );
}

#[test]
fn update_test_unresolved() {
    let mut server = Playback::new();
    let (c0, _) = set_up(&mut server);

    feed_update(&mut server, 1, 0, 0, 0);
    let x = update::Arg {
        rev: &c0.rev.to_string(),
        ..Default::default()
    };
    update::update(&mut server, x).unwrap();

    server.feed_output(
        &b"0 files updated, 0 files merged, 0 files removed, 1 files unresolved\nuse 'hg resolve' to retry unresolved file merges\n"
            .to_vec(),
    );
    server.feed_result(1);
    assert_eq!(
        update::update(&mut server, update::Arg::default()).unwrap(),
        Update {
            updated: 0,
            merged: 0,
            removed: 0,
            unresolved: 1,
        }
    );

    server.feed_output(&b"M a\x00".to_vec());
    server.feed_result(0);
    assert!(status::status(&mut server, status::Arg::default())
        .unwrap()
        .contains(&Status {
            code: Code::Modified,
            filename: "a".to_string(),
        }));
}

#[test]
fn test_merge() {
    let mut server = Playback::new();
    set_up(&mut server);

    feed_commit(&mut server, 2, "aaaabbbbccccddddeeeeffff0000111122223333");
    let c2 = commit(&mut server, "third", false);
    feed_commit(&mut server, 3, "9999888877776666555544443333222211110000");
    commit(&mut server, "fourth", false);

    feed_update(&mut server, 1, 0, 0, 0);
    let x = update::Arg {
        rev: &c2.rev.to_string(),
        ..Default::default()
    };
    update::update(&mut server, x).unwrap();

    feed_update(&mut server, 0, 1, 0, 0);
    assert_eq!(
        update::update(&mut server, update::Arg::default()).unwrap(),
        Update {
            updated: 0,
            merged: 1,
            removed: 0,
            unresolved: 0,
        }
    );

    server.feed_output(&b"M a\x00".to_vec());
    server.feed_result(0);
    assert_eq!(
        status::status(&mut server, status::Arg::default()).unwrap(),
        vec![Status {
            code: Code::Modified,
            filename: "a".to_string(),
        }]
    );
}

#[test]
fn test_tip() {
    let mut server = Playback::new();
    let (c0, c1) = set_up(&mut server);

    feed_update(&mut server, 1, 0, 0, 0);
    let x = update::Arg {
        rev: &c0.rev.to_string(),
        ..Default::default()
    };
    update::update(&mut server, x).unwrap();
    feed_update(&mut server, 1, 0, 0, 0);
    let u = update::update(&mut server, update::Arg::default()).unwrap();
    assert_eq!(u.updated, 1);

    let record = format!(
        "1\x00{}\x00tip\x00default\x00test\x00second\x001443827606.0-3600\x00",
        c1.node
    );
    server.feed_output(&record.into_bytes());
    server.feed_result(0);
    assert_eq!(
        parents::parents(&mut server, parents::Arg::default()).unwrap()[0].node,
        c1.node
    );

    feed_update(&mut server, 1, 0, 0, 0);
    let x = update::Arg {
        rev: &c0.rev.to_string(),
        ..Default::default()
    };
    update::update(&mut server, x).unwrap();

    feed_commit(&mut server, 2, "aaaabbbbccccddddeeeeffff0000111122223333");
    let c2 = commit(&mut server, "new head", false);

    feed_update(&mut server, 1, 0, 0, 0);
    let x = update::Arg {
        rev: &c0.rev.to_string(),
        ..Default::default()
    };
    update::update(&mut server, x).unwrap();

    feed_update(&mut server, 1, 0, 0, 0);
    update::update(&mut server, update::Arg::default()).unwrap();

    let record = format!(
        "2\x00{}\x00tip\x00default\x00test\x00new head\x001443827606.0-3600\x00",
        c2.node
    );
    server.feed_output(&record.into_bytes());
    server.feed_result(0);
    assert_eq!(
        parents::parents(&mut server, parents::Arg::default()).unwrap()[0].node,
        c2.node
    );
}

#[test]
fn test_check_clean() {
    let mut server = Playback::new();
    set_up(&mut server);

    server.feed_error(&b"abort: cannot specify both -c/--check and -C/--clean\n".to_vec());
    server.feed_result(255);
    let x = update::Arg {
        clean: true,
        check: true,
        ..Default::default()
    };
    assert!(update::update(&mut server, x).is_err());
}

#[test]
fn test_clean() {
    let mut server = Playback::new();
    set_up(&mut server);

    server.feed_error(&b"abort: uncommitted changes\n".to_vec());
    server.feed_result(255);
    let x = update::Arg {
        check: true,
        ..Default::default()
    };
    assert!(update::update(&mut server, x).is_err());

    feed_update(&mut server, 1, 0, 0, 0);
    let x = update::Arg {
        clean: true,
        ..Default::default()
    };
    let u = update::update(&mut server, x).unwrap();
    assert_eq!(u.updated, 1);
}

#[test]
fn test_basic_plain() {
    let mut server = Playback::new();
    let (c0, _) = set_up(&mut server);

    feed_update(&mut server, 1, 0, 0, 0);
    let x = update::Arg {
        rev: &c0.rev.to_string(),
        ..Default::default()
    };
    assert_eq!(
        update::update(&mut server, x).unwrap(),
        Update {
            updated: 1,
            merged: 0,
            removed: 0,
            unresolved: 0,
        }
    );
}

use hglib::commit;
use hglib::merge;
use hglib::resolve;
use hglib::update;
use hglib::Playback;

fn feed_commit(server: &mut Playback, rev: u64, node: &str) {
    let line = format!("committed changeset {}:{}\n", rev, node);
    server.feed_output(&line.into_bytes());
    server.feed_result(0);
}

fn commit(server: &mut Playback, message: &str, addremove: bool) -> commit::Commit {
    let x = commit::Arg {
        message,
        addremove,
        ..Default::default()
    };
    commit::commit(server, x).unwrap()
}

#[test]
fn resolve_test_basic() {
    let mut server = Playback::new();
    feed_commit(&mut server, 0, "0123456789abcdef0123456789abcdef01234567");
    let node0 = commit(&mut server, "first", true).node;
    feed_commit(&mut server, 1, "fedcba9876543210fedcba9876543210fedcba98");
    let node1 = commit(&mut server, "second", false).node;

    server.feed_output(&b"2 files updated, 0 files merged, 0 files removed, 0 files unresolved\n".to_vec());
    server.feed_result(0);
    let x = update::Arg {
        rev: &node0,
        ..Default::default()
    };
    assert!(update::update(&mut server, x).is_ok());

    feed_commit(&mut server, 2, "aaaabbbbccccddddeeeeffff0000111122223333");
    assert!(commit(&mut server, "thrid", false).rev == 2);

    server.feed_error(&b"warning: conflicts while merging a!\n".to_vec());
    server.feed_result(1);
    let x = merge::Arg {
        rev: &node1,
        ..Default::default()
    };
    assert!(merge::merge(&mut server, x).is_err());

    server.feed_result(1);
    let x = resolve::Arg {
        all: true,
        ..Default::default()
    };
    assert!(resolve::resolve(&mut server, x).is_err());

    server.feed_output(&b"U a\nU b\n".to_vec());
    server.feed_result(0);
    let x = resolve::Arg {
        listfiles: true,
        ..Default::default()
    };
    assert_eq!(
        resolve::resolve(&mut server, x).unwrap(),
        Some(vec![
            resolve::Resolve {
                kind: resolve::Kind::Unresolved,
                filename: "a".to_string(),
            },
            resolve::Resolve {
                kind: resolve::Kind::Unresolved,
                filename: "b".to_string(),
            },
        ])
    );

    server.feed_result(0);
    let x = resolve::Arg {
        file: &["a"],
        mark: true,
        ..Default::default()
    };
    assert!(resolve::resolve(&mut server, x).is_ok());

    server.feed_output(&b"R a\nU b\n".to_vec());
    server.feed_result(0);
    let x = resolve::Arg {
        listfiles: true,
        ..Default::default()
    };
    assert_eq!(
        resolve::resolve(&mut server, x).unwrap(),
        Some(vec![
            resolve::Resolve {
                kind: resolve::Kind::Resolved,
                filename: "a".to_string(),
            },
            resolve::Resolve {
                kind: resolve::Kind::Unresolved,
                filename: "b".to_string(),
            },
        ])
    );
}

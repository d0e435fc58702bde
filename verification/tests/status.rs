use hglib::copy;
use hglib::status::{self, Code, Status};
use hglib::Playback;

fn feed_commit(server: &mut Playback, rev: u64, node: &str) {
    let line = format!("committed changeset {}:{}\n", rev, node);
    server.feed_output(&line.into_bytes());
    server.feed_result(0);
}

fn commit_ok(server: &mut Playback, message: &str) {
    let x = hglib::commit::Arg {
        message,
        addremove: true,
        ..Default::default()
    };
    assert!(hglib::commit::commit(server, x).is_ok());
}

#[test]
fn status_test_empty() {
    let mut server = Playback::new();
    server.feed_result(0);
    let st = status::status(&mut server, status::Arg::default()).unwrap();
    assert_eq!(st.len(), 0);
}

#[test]
fn test_copy() {
    let mut server = Playback::new();
    feed_commit(&mut server, 0, "0123456789abcdef0123456789abcdef01234567");
    commit_ok(&mut server, "first");

    server.feed_result(0);
    let x = copy::Arg {
        source: &["source"],
        dest: "dest",
        ..Default::default()
    };
    assert!(copy::copy(&mut server, x).is_ok());

    server.feed_output(&b"A dest\x00  source\x00".to_vec());
    server.feed_result(0);
    let x = status::Arg {
        copies: true,
        ..Default::default()
    };
    assert_eq!(
        status::status(&mut server, x).unwrap(),
        vec![
            Status {
                code: Code::Added,
                filename: "dest".to_string(),
            },
            Status {
                code: Code::Origin,
                filename: "source".to_string(),
            }
        ]
    );
}

#[test]
fn test_copy_origin_space() {
    let mut server = Playback::new();
    feed_commit(&mut server, 0, "0123456789abcdef0123456789abcdef01234567");
    commit_ok(&mut server, "first");

    server.feed_result(0);
    let x = copy::Arg {
        source: &["s ource"],
        dest: "dest",
        ..Default::default()
    };
    assert!(copy::copy(&mut server, x).is_ok());

    server.feed_output(&b"A dest\x00  s ource\x00".to_vec());
    server.feed_result(0);
    let x = status::Arg {
        copies: true,
        ..Default::default()
    };
    assert_eq!(
        status::status(&mut server, x).unwrap(),
        vec![
            Status {
                code: Code::Added,
                filename: "dest".to_string(),
            },
            Status {
                code: Code::Origin,
                filename: "s ource".to_string(),
            }
        ]
    );
}

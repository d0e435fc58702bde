use hglib::copy;
use hglib::status::{self, Code, Status};
use hglib::Playback;

fn feed_commit(server: &mut Playback, rev: u64, node: &str) {
    let line = format!("committed changeset {}:{}\n", rev, node);
    server.feed_output(&line.into_bytes());
    server.feed_result(0);
}

fn commit_ok(server: &mut Playback, message: &str) {
    let x = hglib::commit::Arg {
        message,
        addremove: true,
        ..Default::default()
    };
    assert!(hglib::commit::commit(server, x).is_ok());
}

#[test]
fn copy_test_basic() {
    let mut server = Playback::new();
    feed_commit(&mut server, 0, "0123456789abcdef0123456789abcdef01234567");
    commit_ok(&mut server, "first");

    server.feed_result(0);
    let x = copy::Arg {
        source: &["a"],
        dest: "b",
        ..Default::default()
    };
    assert!(copy::copy(&mut server, x).unwrap());

    server.feed_output(&b"A b\x00".to_vec());
    server.feed_result(0);
    assert_eq!(
        status::status(&mut server, status::Arg::default()).unwrap(),
        vec![Status {
            code: Code::Added,
            filename: "b".to_string(),
        }]
    );

    server.feed_result(0);
    let x = copy::Arg {
        source: &["a"],
        dest: "c",
        after: true,
        ..Default::default()
    };
    assert!(copy::copy(&mut server, x).unwrap());

    server.feed_output(&b"A b\x00A c\x00".to_vec());
    server.feed_result(0);
    assert_eq!(
        status::status(&mut server, status::Arg::default()).unwrap(),
        vec![
            Status {
                code: Code::Added,
                filename: "b".to_string(),
            },
            Status {
                code: Code::Added,
                filename: "c".to_string(),
            }
        ]
    );
}

use hglib::commit;
use hglib::diff;
use hglib::merge;
use hglib::update;
use hglib::Playback;
use std::str;

fn feed_commit(server: &mut Playback, rev: u64, node: &str) {
    let line = format!("committed changeset {}:{}\n", rev, node);
    server.feed_output(&line.into_bytes());
    server.feed_result(0);
}

fn commit(server: &mut Playback, message: &str, addremove: bool) -> commit::Commit {
    let x = commit::Arg {
        message,
        addremove,
        ..Default::default()
    };
    commit::commit(server, x).unwrap()
}

fn set_up(server: &mut Playback) -> (String, String) {
    feed_commit(server, 0, "0123456789abcdef0123456789abcdef01234567");
    let first = commit(server, "first", true);
    feed_commit(server, 1, "fedcba9876543210fedcba9876543210fedcba98");
    let second = commit(server, "change", false);
    (first.node, second.node)
}

#[test]
fn merge_test_basic() {
    let mut server = Playback::new();
    let (node0, node1) = set_up(&mut server);

    server.feed_output(&b"1 files updated, 0 files merged, 0 files removed, 0 files unresolved\n".to_vec());
    server.feed_result(0);
    let x = update::Arg {
        rev: node0.as_str(),
        ..Default::default()
    };
    assert!(update::update(&mut server, x).is_ok());

    feed_commit(&mut server, 2, "aaaabbbbccccddddeeeeffff0000111122223333");
    let commit2 = commit(&mut server, "new file", true);

    server.feed_output(&b"1 files updated, 0 files merged, 0 files removed, 0 files unresolved\n(branch merge, don't forget to commit)\n".to_vec());
    server.feed_result(0);
    let x = merge::Arg {
        rev: &node1,
        ..Default::default()
    };
    assert!(merge::merge(&mut server, x).is_ok());

    feed_commit(&mut server, 3, "9999888877776666555544443333222211110000");
    let commit = commit(&mut server, "merge", false);

    let expected = format!(
        r#"diff -r {node2} -r {node} a
--- a/a
+++ b/a
@@ -1,1 +1,1 @@
-a
\ No newline at end of file
+aa
\ No newline at end of file
"#,
        node2 = &commit2.node[0..12],
        node = &commit.node[0..12]
    );

    server.feed_output(&expected.clone().into_bytes());
    server.feed_result(0);
    let x = diff::Arg {
        change: commit.node.as_str(),
        nodates: true,
        ..Default::default()
    };
    let diff_bytes = diff::diff(&mut server, x).unwrap();
    let diff = str::from_utf8(&diff_bytes).unwrap();

    assert_eq!(diff, expected)
}

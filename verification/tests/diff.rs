use hglib::add;
use hglib::commit;
use hglib::diff;
use hglib::Playback;

fn feed_commit(server: &mut Playback, rev: u64, node: &str) {
    let line = format!("committed changeset {}:{}\n", rev, node);
    server.feed_output(&line.into_bytes());
    server.feed_result(0);
}

#[test]
fn diff_test_basic() {
    let mut server = Playback::new();
    let node0 = "34e7b7d88b68c94143d7082b2a2a56c0334f2b08";
    let node1 = "8a699d2e53f42098eaca564662eee1b25252390d";

    server.feed_result(0);
    let x = add::Arg {
        files: &["a"],
        ..Default::default()
    };
    add::add(&mut server, x).unwrap();

    let diff1 = "diff -r 000000000000 a
--- /dev/null
+++ b/a
@@ -0,0 +1,1 @@
+a
";
    server.feed_output(&diff1.as_bytes().to_vec());
    server.feed_result(0);
    let x = diff::Arg {
        nodates: true,
        ..Default::default()
    };
    let diff = diff::diff(&mut server, x).unwrap();
    let diff = String::from_utf8(diff).unwrap();
    assert_eq!(diff, diff1);

    server.feed_output(&diff1.as_bytes().to_vec());
    server.feed_result(0);
    let x = diff::Arg {
        files: &["a"],
        nodates: true,
        ..Default::default()
    };
    let diff = diff::diff(&mut server, x).unwrap();
    let diff = String::from_utf8(diff).unwrap();
    assert!(diff == diff1);

    feed_commit(&mut server, 0, node0);
    let x = commit::Arg {
        message: "first",
        ..Default::default()
    };
    let rev0 = commit::commit(&mut server, x).unwrap();

    let diff2 = "diff -r 000000000000 -r ".to_string()
        + &rev0.node[..12]
        + " a
--- /dev/null
+++ b/a
@@ -0,0 +1,1 @@
+a
";
    server.feed_output(&diff2.as_bytes().to_vec());
    server.feed_result(0);
    let x = diff::Arg {
        change: &rev0.rev.to_string(),
        nodates: true,
        ..Default::default()
    };
    let diff = diff::diff(&mut server, x).unwrap();
    let diff = String::from_utf8(diff).unwrap();
    assert_eq!(diff2, diff);

    feed_commit(&mut server, 1, node1);
    let x = commit::Arg {
        message: "second",
        ..Default::default()
    };
    let rev1 = commit::commit(&mut server, x).unwrap();

    let diff3 = "diff -r ".to_string()
        + &rev0.node[..12]
        + " a
--- a/a
+++ b/a
@@ -1,1 +1,2 @@
 a
+a
";
    server.feed_output(&diff3.as_bytes().to_vec());
    server.feed_result(0);
    let x = diff::Arg {
        revs: &[&rev0.rev.to_string()],
        nodates: true,
        ..Default::default()
    };
    let diff = diff::diff(&mut server, x).unwrap();
    let diff = String::from_utf8(diff).unwrap();
    assert_eq!(diff3, diff);

    let diff4 = "diff -r ".to_string()
        + &rev0.node[..12]
        + " -r "
        + &rev1.node[..12]
        + " a
--- a/a
+++ b/a
@@ -1,1 +1,2 @@
 a
+a
";
    server.feed_output(&diff4.as_bytes().to_vec());
    server.feed_result(0);
    let x = diff::Arg {
        revs: &[&rev0.rev.to_string(), &rev1.rev.to_string()],
        nodates: true,
        ..Default::default()
    };
    let diff = diff::diff(&mut server, x).unwrap();
    let diff = String::from_utf8(diff).unwrap();
    assert_eq!(diff4, diff);
}

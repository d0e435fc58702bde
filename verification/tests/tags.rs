use hglib::tag;
use hglib::tags::{self, Tag};
use hglib::tip;
use hglib::version;
use hglib::Playback;

#[test]
fn tags_test_basic() {
    let mut server = Playback::new();
    let node = "0123456789abcdef0123456789abcdef01234567";
    let tip_node = "fedcba9876543210fedcba9876543210fedcba98";

    let line = format!("committed changeset 0:{}\n", node);
    server.feed_output(&line.into_bytes());
    server.feed_result(0);
    let x = hglib::commit::Arg {
        message: "first",
        addremove: true,
        ..Default::default()
    };
    let commit = hglib::commit::commit(&mut server, x).unwrap();
    let (rev, node) = (commit.rev, commit.node);

    server.feed_result(0);
    let x = tag::Arg {
        names: &["my tag"],
        ..Default::default()
    };
    assert!(tag::tag(&mut server, x).is_ok());

    server.feed_result(0);
    let x = tag::Arg {
        names: &["local tag"],
        rev: &rev.to_string(),
        local: true,
        ..Default::default()
    };
    assert!(tag::tag(&mut server, x).is_ok());

    server.feed_output(&b"Mercurial Distributed SCM (version 5.2)\n".to_vec());
    server.feed_result(0);
    let version = version::version(&mut server, version::Arg::default()).unwrap();
    assert!(version.major >= 2);

    let record = format!(
        "1\x00{}\x00tip\x00default\x00test\x00Added tag my tag for changeset 0123456789ab\x001443827606.0-3600\x00",
        tip_node
    );
    server.feed_output(&record.into_bytes());
    server.feed_result(0);
    let tip_rev = tip::tip(&mut server, tip::Arg::default()).unwrap();

    let listing = format!(
        "tip                                1:{}\nmy tag                             0:{}\nlocal tag                          0:{} local\n",
        &tip_node[..12],
        &node[..12],
        &node[..12]
    );
    server.feed_output(&listing.into_bytes());
    server.feed_result(0);

    let expected = vec![
        Tag {
            name: "tip".to_string(),
            rev: 1,
            node: tip_rev.node[..12].to_string(),
            islocal: false,
        },
        Tag {
            name: "my tag".to_string(),
            rev: 0,
            node: node[..12].to_string(),
            islocal: false,
        },
        Tag {
            name: "local tag".to_string(),
            rev: 0,
            node: node[..12].to_string(),
            islocal: true,
        },
    ];

    assert_eq!(tags::tags(&mut server, tags::Arg::default()).unwrap(), expected);
}

use hglib::bookmark;
use hglib::bookmarks::{self, Bookmark, Bookmarks};
use hglib::Playback;

fn feed_commit(server: &mut Playback, rev: u64, node: &str) {
    let line = format!("committed changeset {}:{}\n", rev, node);
    server.feed_output(&line.into_bytes());
    server.feed_result(0);
}

fn commit(server: &mut Playback, message: &str) -> hglib::commit::Commit {
    let x = hglib::commit::Arg {
        message,
        addremove: true,
        ..Default::default()
    };
    hglib::commit::commit(server, x).unwrap()
}

#[test]
fn bookmarks_test_empty() {
    let mut server = Playback::new();
    server.feed_output(&b"no bookmarks set\n".to_vec());
    server.feed_result(0);
    assert_eq!(
        bookmarks::bookmarks(&mut server, bookmarks::Arg::default()).unwrap(),
        Bookmarks {
            bookmarks: Vec::new(),
            current: None,
        }
    );
}

#[test]
fn bookmarks_test_basic() {
    let mut server = Playback::new();
    feed_commit(&mut server, 0, "0123456789abcdef0123456789abcdef01234567");
    let rev0 = commit(&mut server, "first");
    feed_commit(&mut server, 1, "fedcba9876543210fedcba9876543210fedcba98");
    let rev1 = commit(&mut server, "second");

    server.feed_result(0);
    let x = bookmark::Arg {
        name: "zero",
        rev: &rev0.rev.to_string(),
        ..Default::default()
    };
    bookmark::bookmark(&mut server, x).unwrap();

    let listing = format!("   zero                      {}:{}\n", rev0.rev, &rev0.node[..12]);
    server.feed_output(&listing.into_bytes());
    server.feed_result(0);
    assert_eq!(
        bookmarks::bookmarks(&mut server, bookmarks::Arg::default()).unwrap(),
        Bookmarks {
            bookmarks: vec![Bookmark {
                name: "zero".to_string(),
                rev: rev0.rev,
                node: rev0.node[..12].to_string(),
            }],
            current: None,
        }
    );

    server.feed_result(0);
    let x = bookmark::Arg {
        name: "one",
        rev: &rev1.rev.to_string(),
        ..Default::default()
    };
    bookmark::bookmark(&mut server, x).unwrap();

    let listing = format!(
        "   one                       {}:{}\n   zero                      {}:{}\n",
        rev1.rev,
        &rev1.node[..12],
        rev0.rev,
        &rev0.node[..12]
    );
    server.feed_output(&listing.into_bytes());
    server.feed_result(0);
    assert_eq!(
        bookmarks::bookmarks(&mut server, bookmarks::Arg::default()).unwrap(),
        Bookmarks {
            bookmarks: vec![
                Bookmark {
                    name: "one".to_string(),
                    rev: rev1.rev,
                    node: rev1.node[..12].to_string(),
                },
                Bookmark {
                    name: "zero".to_string(),
                    rev: rev0.rev,
                    node: rev0.node[..12].to_string(),
                }
            ],
            current: None,
        }
    );
}

use hglib::annotate;
use hglib::common;
use hglib::grep;
use hglib::incoming::{self, Incoming};
use hglib::manifest::{self, Manifest};
use hglib::version;
use hglib::Playback;

/// The version banner parses into its numeric parts and any build
/// information.
#[test]
fn version_banner() {
    let mut server = Playback::new();
    server.feed_output(&b"Mercurial Distributed SCM (version 4.9.1+20190401)\n".to_vec());
    server.feed_result(0);
    let v = version::version(&mut server, version::Arg::default()).unwrap();
    assert_eq!(v.major, 4);
    assert_eq!(v.minor, 9);
    assert_eq!(v.micro, Some(1));
    assert_eq!(v.build_info, Some("+20190401".to_string()));

    let mut server = Playback::new();
    server.feed_output(&b"Mercurial Distributed SCM (version 5.2)\n".to_vec());
    server.feed_result(0);
    let v = version::version(&mut server, version::Arg::default()).unwrap();
    assert_eq!(v.major, 5);
    assert_eq!(v.minor, 2);
    assert_eq!(v.micro, None);
    assert_eq!(v.build_info, None);
}

/// A template-rendered buffer parses into its changesets, timestamps
/// included.
#[test]
fn changeset_records() {
    let mut server = Playback::new();
    let record = "7\x00ffff0000ffff0000ffff0000ffff0000ffff0000\x00tip\x00default\x00someone <s@x.y>\x00a message\x001443827606.014400\x00";
    server.feed_output(&record.as_bytes().to_vec());
    server.feed_result(0);
    let revs = hglib::log::log(&mut server, hglib::log::Arg::default()).unwrap();
    assert_eq!(revs.len(), 1);
    let r = &revs[0];
    assert_eq!(r.rev, 7);
    assert_eq!(r.node, "ffff0000ffff0000ffff0000ffff0000ffff0000");
    assert_eq!(r.tags, "tip");
    assert_eq!(r.branch, "default");
    assert_eq!(r.author, "someone <s@x.y>");
    assert_eq!(r.desc, "a message");
    assert_eq!(r.date, 1443827606);
}

/// The debug manifest listing parses its fixed columns.
#[test]
fn manifest_info() {
    let mut server = Playback::new();
    let line = "0123456789abcdef0123456789abcdef01234567 644   a\n\
                fedcba9876543210fedcba9876543210fedcba98 755 * b\n";
    server.feed_output(&line.as_bytes().to_vec());
    server.feed_result(0);
    let m = manifest::manifest(&mut server, manifest::Arg::default()).unwrap();
    match m {
        Manifest::Info(files) => {
            assert_eq!(files.len(), 2);
            assert_eq!(files[0].node, "0123456789abcdef0123456789abcdef01234567");
            assert_eq!(files[0].perm, "644");
            assert!(!files[0].symlink);
            assert!(!files[0].executable);
            assert_eq!(files[0].filename, "a");
            assert!(files[1].executable);
            assert_eq!(files[1].filename, "b");
        }
        Manifest::All(_) => panic!("expected the full listing"),
    }
}

/// A starred bookmark line marks the current bookmark.
#[test]
fn bookmarks_current() {
    let mut server = Playback::new();
    server.feed_output(&b" * main                      3:0123456789ab\n".to_vec());
    server.feed_result(0);
    let b = hglib::bookmarks::bookmarks(&mut server, hglib::bookmarks::Arg::default()).unwrap();
    assert_eq!(b.current, Some(0));
    assert_eq!(b.bookmarks[0].name, "main");
    assert_eq!(b.bookmarks[0].rev, 3);
    assert_eq!(b.bookmarks[0].node, "0123456789ab");
}

/// Incoming bookmarks arrive as name and revision pairs after the
/// report lines.
#[test]
fn incoming_bookmarks() {
    let mut server = Playback::new();
    let text = "comparing with other\nsearching for changes\n   mark                      0123456789ab\n";
    server.feed_output(&text.as_bytes().to_vec());
    server.feed_result(0);
    let x = incoming::Arg {
        path: "other",
        bookmarks: true,
        ..Default::default()
    };
    match incoming::incoming(&mut server, x).unwrap() {
        Incoming::Bookmarks(marks) => {
            assert_eq!(marks.len(), 1);
            assert_eq!(marks[0].bookmark, "mark");
            assert_eq!(marks[0].revision, "0123456789ab");
        }
        _ => panic!("expected bookmarks"),
    }
}

/// An empty incoming answer (result code 1) means nothing to pull.
#[test]
fn incoming_empty() {
    let mut server = Playback::new();
    server.feed_result(1);
    let x = incoming::Arg {
        path: "other",
        ..Default::default()
    };
    assert_eq!(
        incoming::incoming(&mut server, x).unwrap(),
        Incoming::Empty
    );
}

/// Grep output cycles through the fields the flags ask for; the
/// server's version decides whether a revision column is present.
#[test]
fn grep_fields() {
    let mut server = Playback::new();
    // the match data itself
    server.feed_output(&b"a\x000\x00something\x00".to_vec());
    server.feed_result(0);
    // the version probe that decides the field set
    server.feed_output(&b"Mercurial Distributed SCM (version 4.9)\n".to_vec());
    server.feed_result(0);
    let x = grep::Arg {
        pattern: "some",
        ..Default::default()
    };
    let matches = grep::grep(&mut server, x).unwrap();
    assert_eq!(matches.len(), 1);
    assert_eq!(matches[0].filename, "a");
    assert_eq!(matches[0].rev, Some(0));
    assert_eq!(matches[0].matched, Some("something".to_string()));
}

/// The annotation cursor splits each line at its first `: `.
#[test]
fn annotate_lines() {
    let mut server = Playback::new();
    server.feed_output(&b"0: first line\n1: second line\n".to_vec());
    server.feed_result(0);
    let x = annotate::Arg {
        files: &["a"],
        ..Default::default()
    };
    let mut lines = annotate::annotate(&mut server, x).unwrap();
    let one = lines.next_line().unwrap().unwrap();
    assert_eq!(one.info, "0");
    assert_eq!(one.content, b"first line".to_vec());
    let two = lines.next_line().unwrap().unwrap();
    assert_eq!(two.info, "1");
    assert_eq!(two.content, b"second line".to_vec());
    assert_eq!(lines.next_line().unwrap(), None);
}

/// The summary parser reads parents, branch and update counts.
#[test]
fn summary_fields() {
    let mut server = Playback::new();
    let text = "parent: 2:0123456789ab tip\n a message\nbranch: default\ncommit: 1 modified\nupdate: 3 new changesets (update)\nweird: kept as text\n";
    server.feed_output(&text.as_bytes().to_vec());
    server.feed_result(0);
    let s = hglib::summary::summary(&mut server, hglib::summary::Arg::default()).unwrap();
    assert_eq!(s.parent.len(), 1);
    assert_eq!(s.parent[0].rev, 2);
    assert_eq!(s.parent[0].node, "0123456789ab");
    assert_eq!(s.parent[0].tags, "tip");
    assert_eq!(s.parent[0].message, "a message");
    assert_eq!(s.branch, "default");
    assert!(!s.commit);
    assert_eq!(s.update, 3);
    assert_eq!(s.others.get("weird"), Some(&"kept as text".to_string()));
}

/// An empty repository's parent line has revision -1 and no message
/// line follows it.
#[test]
fn summary_empty_repository() {
    let mut server = Playback::new();
    let text = "parent: -1:000000000000 tip (empty repository)\nbranch: default\ncommit: (clean)\nupdate: (current)\n";
    server.feed_output(&text.as_bytes().to_vec());
    server.feed_result(0);
    let s = hglib::summary::summary(&mut server, hglib::summary::Arg::default()).unwrap();
    assert_eq!(s.parent[0].rev, -1);
    assert_eq!(s.parent[0].tags, "tip");
    assert!(s.commit);
    assert_eq!(s.update, 0);
}

/// The remote summary line is parsed only when it was asked for.
#[test]
fn summary_remote() {
    let mut server = Playback::new();
    let text = "parent: -1:000000000000 tip (empty repository)\nbranch: default\ncommit: (clean)\nupdate: (current)\nremote: 2 outgoing, 3 incoming bookmarks\n";
    server.feed_output(&text.as_bytes().to_vec());
    server.feed_result(0);
    let x = hglib::summary::Arg { remote: true };
    let s = hglib::summary::summary(&mut server, x).unwrap();
    let remote = s.remote.unwrap();
    assert_eq!(remote.outgoing, 2);
    assert_eq!(remote.incoming_bookmarks, 3);
    assert_eq!(remote.incoming, 0);
}

/// Dropping report lines: what follows the n-th newline.
#[test]
fn eatlines_bounds() {
    assert_eq!(common::eatlines(b"a\nb\nc", 2), b"c");
    assert_eq!(common::eatlines(b"a\nb\nc", 5), b"");
    assert_eq!(common::eatlines(b"a\nb\nc", 0), b"");
}

/// A debug configuration listing names the source of every entry and
/// skips the leading notices.
#[test]
fn config_sources() {
    let mut server = Playback::new();
    let text = "read config from: /tmp/x/.hg/hgrc\nset config by: --config a.b=c\n/tmp/x/.hg/hgrc:2: section.key=value\n";
    server.feed_output(&text.as_bytes().to_vec());
    server.feed_result(0);
    let x = hglib::config::Arg {
        showsource: true,
        ..Default::default()
    };
    let entries = hglib::config::config(&mut server, x).unwrap();
    assert_eq!(entries.len(), 1);
    assert_eq!(entries[0].source, Some("/tmp/x/.hg/hgrc:2".to_string()));
    assert_eq!(entries[0].section, "section");
    assert_eq!(entries[0].key, "key");
    assert_eq!(entries[0].value, "value");
}

/// An update failure with code 1 still carries a summary; other
/// failures pass through unchanged.
#[test]
fn update_salvages_code_one() {
    let raw = Ok((
        b"2 files updated, 0 files merged, 1 files removed, 0 files unresolved\n".to_vec(),
        0,
    ));
    let u = hglib::update::from_outcome(raw).unwrap();
    assert_eq!(u.updated, 2);
    assert_eq!(u.removed, 1);

    let raw = Err(hglib::HglibError {
        code: 1,
        out: Some(
            b"0 files updated, 0 files merged, 0 files removed, 3 files unresolved\n".to_vec(),
        ),
        msg: String::new(),
    });
    let u = hglib::update::from_outcome(raw).unwrap();
    assert_eq!(u.unresolved, 3);

    let raw = Err(hglib::HglibError {
        code: 255,
        out: None,
        msg: "abort".to_string(),
    });
    let e = hglib::update::from_outcome(raw).unwrap_err();
    assert_eq!(e.code, 255);
}

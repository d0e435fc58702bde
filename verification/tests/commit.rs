use hglib::commit;
use hglib::log;
use hglib::Playback;

#[test]
fn test_user() {
    let mut server = Playback::new();
    let node = "0123456789abcdef0123456789abcdef01234567";
    let line = format!("committed changeset 0:{}\n", node);
    server.feed_output(&line.into_bytes());
    server.feed_result(0);
    let x = commit::Arg {
        message: "first",
        addremove: true,
        user: "foo",
        ..Default::default()
    };
    let rev = commit::commit(&mut server, x).unwrap();

    let record = format!("0\x00{}\x00tip\x00default\x00foo\x00first\x001443827606.0-3600\x00", node);
    server.feed_output(&record.into_bytes());
    server.feed_result(0);
    let x = log::Arg {
        revrange: &[&rev.node],
        limit: Some(1),
        ..Default::default()
    };
    let rev = log::log(&mut server, x).unwrap();
    let rev = &rev[0];
    assert_eq!(rev.author, "foo");
}

#[test]
fn test_no_user() {
    let mut server = Playback::new();
    server.feed_output(&b"nothing changed\n".to_vec());
    server.feed_result(1);
    let x = commit::Arg {
        message: "first",
        user: "",
        ..Default::default()
    };
    assert!(commit::commit(&mut server, x).is_err());
}

#[test]
fn test_message_logfile() {
    let mut server = Playback::new();
    let x = commit::Arg {
        message: "foo",
        logfile: "bar",
        ..Default::default()
    };
    assert!(commit::commit(&mut server, x).is_err());
    assert!(commit::commit(&mut server, commit::Arg::default()).is_err());
}

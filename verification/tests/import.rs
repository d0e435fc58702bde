use hglib::cat;
use hglib::import;
use hglib::update;
use hglib::Playback;

const PATCH: &str = r#"
# HG changeset patch";
# User test
# Date 0 0
# Node ID c103a3dec114d882c98382d684d8af798d09d857
# Parent  0000000000000000000000000000000000000000
1

diff -r 000000000000 -r c103a3dec114 a
--- /dev/null	Thu Jan 01 00:00:00 1970 +0000
+++ b/a	Thu Jan 01 00:00:00 1970 +0000
@@ -0,0 +1,1 @@
+1
"#;

#[test]
fn test_basic_cstringio() {
    let mut server = Playback::new();
    // the patch is fed through the input channel until it is drained
    server.feed_input_request(true, 4096);
    server.feed_input_request(true, 4096);
    server.feed_output(&b"applying patch from stdin\n".to_vec());
    server.feed_result(0);
    let x = import::Arg {
        patches: &[PATCH],
        ..Default::default()
    };
    import::import(&mut server, x).unwrap();

    server.feed_output(&b"1\n".to_vec());
    server.feed_result(0);
    let x = cat::Arg {
        files: &["a"],
        ..Default::default()
    };
    let a = cat::cat(&mut server, x).unwrap().unwrap();
    assert_eq!(String::from_utf8(a).unwrap(), "1\n");

    // everything the prompt served was framed and written back
    let mut expected = Vec::new();
    expected.extend_from_slice(&(PATCH.len() as u32).to_be_bytes());
    expected.extend_from_slice(PATCH.as_bytes());
    expected.extend_from_slice(&0u32.to_be_bytes());
    assert_eq!(server.replies, expected);
}

#[test]
fn test_basic_file() {
    let mut server = Playback::new();
    server.feed_output(&b"applying patch\n".to_vec());
    server.feed_result(0);
    let x = import::Arg {
        patches: &["patch"],
        nocommit: true,
        ..Default::default()
    };
    assert!(import::import(&mut server, x).is_ok());

    server.feed_output(&b"1 files updated, 0 files merged, 0 files removed, 0 files unresolved\n".to_vec());
    server.feed_result(0);
    let x = update::Arg {
        clean: true,
        ..Default::default()
    };
    assert!(update::update(&mut server, x).is_ok());

    server.feed_output(&b"applying patch\n".to_vec());
    server.feed_result(0);
    let x = import::Arg {
        patches: &["patch"],
        ..Default::default()
    };
    assert!(import::import(&mut server, x).is_ok());

    server.feed_output(&b"1\n".to_vec());
    server.feed_result(0);
    let x = cat::Arg {
        files: &["a"],
        ..Default::default()
    };
    let a = cat::cat(&mut server, x).unwrap().unwrap();
    assert_eq!(String::from_utf8(a).unwrap(), "1\n");
}

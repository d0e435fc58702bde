use hglib::config::{self, Config};
use hglib::Playback;

#[test]
fn config_test_basic() {
    let mut server = Playback::new();
    server.feed_output(&b"section.key=value\n".to_vec());
    server.feed_result(0);
    let config = config::config(&mut server, config::Arg::default()).unwrap();
    assert!(config.iter().any(|x| *x
        == Config {
            source: None,
            section: "section".to_string(),
            key: "key".to_string(),
            value: "value".to_string(),
        }));

    server.feed_output(&b"section.key=value\n".to_vec());
    server.feed_result(0);
    let x = config::Arg {
        names: &["section"],
        ..Default::default()
    };
    assert_eq!(
        config::config(&mut server, x).unwrap(),
        vec![Config {
            source: None,
            section: "section".to_string(),
            key: "key".to_string(),
            value: "value".to_string(),
        }]
    );

    server.feed_output(&b"section.key=value\n".to_vec());
    server.feed_result(0);
    let x = config::Arg {
        names: &["section", "foo"],
        ..Default::default()
    };
    assert_eq!(
        config::config(&mut server, x).unwrap(),
        vec![Config {
            source: None,
            section: "section".to_string(),
            key: "key".to_string(),
            value: "value".to_string(),
        }]
    );

    server.feed_error(&b"abort: unknown config option a.b\n".to_vec());
    server.feed_result(255);
    let x = config::Arg {
        names: &["a.b", "foo"],
        ..Default::default()
    };
    assert!(config::config(&mut server, x).is_err());
}

#[test]
fn test_arguments() {
    let mut server = Playback::new();
    server.feed_output(&b"a.b=foo\n".to_vec());
    server.feed_result(0);
    let x = config::Arg {
        names: &["a"],
        ..Default::default()
    };
    assert_eq!(
        config::config(&mut server, x).unwrap(),
        vec![Config {
            source: None,
            section: "a".to_string(),
            key: "b".to_string(),
            value: "foo".to_string(),
        }]
    );

    server.feed_output(&b"diff.unified=5\n".to_vec());
    server.feed_result(0);
    let x = config::Arg {
        names: &["diff"],
        ..Default::default()
    };
    assert!(config::config(&mut server, x)
        .unwrap()
        .iter()
        .any(|x| *x
            == Config {
                source: None,
                section: "diff".to_string(),
                key: "unified".to_string(),
                value: "5".to_string(),
            }));
}

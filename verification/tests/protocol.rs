use hglib::codec;
use hglib::protocol;
use hglib::HglibError;
use hglib::NoPrompt;
use hglib::Playback;
use hglib::Prompt;
use hglib::Runner;

fn request(args: &[&str]) -> Vec<String> {
    args.iter().map(|a| a.to_string()).collect()
}

/// Encoding a request and decoding the bytes recovers the argument
/// list exactly.
#[test]
fn framing_round_trip() {
    let args: Vec<Vec<u8>> = vec![b"status".to_vec(), b"-A".to_vec(), b"some file".to_vec()];
    let encoded = codec::encode_request(&args).unwrap();
    let decoded = codec::decode_request(&encoded).unwrap();
    assert_eq!(args, decoded);

    let args: Vec<Vec<u8>> = vec![b"version".to_vec()];
    let encoded = codec::encode_request(&args).unwrap();
    let decoded = codec::decode_request(&encoded).unwrap();
    assert_eq!(args, decoded);
}

/// The length field equals the sum of the argument lengths plus one
/// separator per neighbouring pair.
#[test]
fn length_invariant() {
    let args: Vec<Vec<u8>> = vec![b"branch".to_vec(), b"foo".to_vec()];
    let encoded = codec::encode_request(&args).unwrap();
    assert_eq!(&encoded[..11], b"runcommand\n");
    // 6 + 3 + 1 separator
    assert_eq!(&encoded[11..15], &[0, 0, 0, 10]);
    assert_eq!(&encoded[15..], b"branch\x00foo");
}

/// Output split across several frames accumulates in arrival order.
#[test]
fn multi_frame_accumulation() {
    let mut server = Playback::new();
    server.feed_output(&b"one ".to_vec());
    server.feed_output(&b"two ".to_vec());
    server.feed_output(&b"three".to_vec());
    server.feed_result(0);
    let (out, code) = server
        .runcommand(&request(&["status"]), &mut None::<NoPrompt>)
        .unwrap();
    assert_eq!(out, b"one two three".to_vec());
    assert_eq!(code, 0);
}

/// Code 0 is success, code 1 is a benign false under the convenience
/// mapping, and any other code is an error carrying the accumulated
/// output.
#[test]
fn result_code_mapping() {
    let mut server = Playback::new();
    server.feed_output(&b"fine\n".to_vec());
    server.feed_result(0);
    let raw = server.runcommand(&request(&["status"]), &mut None::<NoPrompt>);
    assert_eq!(raw.as_ref().unwrap().1, 0);
    assert_eq!(HglibError::handle_err(raw).unwrap(), true);

    server.feed_result(1);
    let raw = server.runcommand(&request(&["status"]), &mut None::<NoPrompt>);
    assert!(raw.is_err());
    assert_eq!(HglibError::handle_err(raw).unwrap(), false);

    server.feed_output(&b"partial output".to_vec());
    server.feed_result(255);
    let raw = server.runcommand(&request(&["status"]), &mut None::<NoPrompt>);
    let err = raw.unwrap_err();
    assert_eq!(err.code, 255);
    assert_eq!(err.out, Some(b"partial output".to_vec()));
    let err = HglibError::handle_err(Err(err)).unwrap_err();
    assert_eq!(err.code, 255);
}

/// An input request with no prompt supplied writes a zero-length
/// reply and fails with a descriptive error.
#[test]
fn missing_prompt() {
    let mut server = Playback::new();
    server.feed_input_request(true, 4096);
    let raw = server.runcommand(&request(&["import", "-"]), &mut None::<NoPrompt>);
    let err = raw.unwrap_err();
    assert!(err.msg.contains("please implement a Prompt"));
    assert_eq!(server.replies, vec![0, 0, 0, 0]);
}

/// A prompt's buffer is framed with its length and written back, and
/// the exchange then continues to the result.
struct TwoChunks {
    served: usize,
}

impl Prompt for TwoChunks {
    fn call(&mut self, _size: usize) -> Vec<u8> {
        self.served += 1;
        match self.served {
            1 => b"hello ".to_vec(),
            2 => b"world".to_vec(),
            _ => Vec::new(),
        }
    }
}

#[test]
fn prompt_replies() {
    let mut server = Playback::new();
    server.feed_input_request(true, 6);
    server.feed_input_request(false, 6);
    server.feed_input_request(true, 6);
    server.feed_output(&b"done\n".to_vec());
    server.feed_result(0);
    let mut prompt = Some(TwoChunks { served: 0 });
    let (out, code) = server
        .runcommand(&request(&["import", "-"]), &mut prompt)
        .unwrap();
    assert_eq!(out, b"done\n".to_vec());
    assert_eq!(code, 0);
    let mut expected = Vec::new();
    expected.extend_from_slice(&[0, 0, 0, 6]);
    expected.extend_from_slice(b"hello ");
    expected.extend_from_slice(&[0, 0, 0, 5]);
    expected.extend_from_slice(b"world");
    expected.extend_from_slice(&[0, 0, 0, 0]);
    assert_eq!(server.replies, expected);
}

/// A frame header with an unknown channel tag fails with an error
/// naming the tag.
#[test]
fn unknown_tag() {
    let mut server = Playback::new();
    server.feed_frame(120, &b"junk".to_vec());
    let err = server
        .runcommand(&request(&["status"]), &mut None::<NoPrompt>)
        .unwrap_err();
    assert_eq!(err.code, -1);
    assert_eq!(err.msg, "Hglib error: invalid channel 120");
}

/// A response that ends in the middle of a frame fails cleanly.
#[test]
fn truncated_response() {
    let mut server = Playback::new();
    let mut frame = protocol::data_frame(111, &b"abcdef".to_vec());
    frame.truncate(8);
    hglib::scan::append_bytes(&mut server.feed, frame.as_slice());
    let err = server
        .runcommand(&request(&["status"]), &mut None::<NoPrompt>)
        .unwrap_err();
    assert_eq!(err.msg, "truncated server response");
}

/// A result frame must carry at least four code bytes.
#[test]
fn short_result_frame() {
    let mut server = Playback::new();
    let mut frame = Vec::new();
    frame.push(114u8);
    frame.extend_from_slice(&[0, 0, 0, 2]);
    frame.extend_from_slice(&[0, 1]);
    hglib::scan::append_bytes(&mut server.feed, frame.as_slice());
    let err = server
        .runcommand(&request(&["status"]), &mut None::<NoPrompt>)
        .unwrap_err();
    assert_eq!(err.msg, "invalid result frame length");
}

/// The request bytes the playback records are the encoded request.
#[test]
fn scenario_status_request() {
    let mut server = Playback::new();
    server.feed_output(&b"M a\x00".to_vec());
    server.feed_result(0);
    let (out, code) = server
        .runcommand(&request(&["status"]), &mut None::<NoPrompt>)
        .unwrap();
    assert_eq!(out, b"M a\x00".to_vec());
    assert_eq!(code, 0);
    assert_eq!(server.sent.len(), 1);
    assert_eq!(&server.sent[0][..11], b"runcommand\n");
    assert_eq!(&server.sent[0][11..15], &[0, 0, 0, 6]);
    assert_eq!(&server.sent[0][15..], b"status");
}

/// A false boolean flag is omitted entirely from the argument list.
#[test]
fn scenario_branch_args() {
    let x = hglib::branch::Arg {
        name: "foo",
        clean: false,
        force: false,
    };
    let args = x.to_args();
    assert_eq!(args, vec!["branch".to_string(), "foo".to_string()]);
}

/// Negative result codes cross the wire as two's-complement values.
#[test]
fn negative_result_code() {
    let mut server = Playback::new();
    server.feed_result(-1);
    let err = server
        .runcommand(&request(&["status"]), &mut None::<NoPrompt>)
        .unwrap_err();
    assert_eq!(err.code, -1);
    assert_eq!(err.out, Some(Vec::new()));
}

/// The hello frame gives the negotiated encoding.
#[test]
fn scenario_handshake() {
    let payload = b"capabilities: x\nencoding: UTF-8\n".to_vec();
    let enc = protocol::parse_hello(111, &payload).unwrap();
    assert_eq!(enc, "UTF-8");
}

/// A hello frame on the wrong channel, without capabilities, or
/// without an encoding fails the handshake.
#[test]
fn handshake_rejections() {
    let payload = b"capabilities: x\nencoding: UTF-8\n".to_vec();
    assert!(protocol::parse_hello(101, &payload).is_err());
    let payload = b"banner\nencoding: UTF-8\n".to_vec();
    assert!(protocol::parse_hello(111, &payload).is_err());
    let payload = b"capabilities: x".to_vec();
    assert!(protocol::parse_hello(111, &payload).is_err());
    let payload = b"capabilities: x\ncharset UTF-8\n".to_vec();
    assert!(protocol::parse_hello(111, &payload).is_err());
}

/// The error channel accumulates separately and does not change a
/// successful outcome.
#[test]
fn error_channel_is_diagnostic() {
    let mut server = Playback::new();
    server.feed_error(&b"warning: something odd\n".to_vec());
    server.feed_output(&b"result\n".to_vec());
    server.feed_result(0);
    let (out, code) = server
        .runcommand(&request(&["status"]), &mut None::<NoPrompt>)
        .unwrap();
    assert_eq!(out, b"result\n".to_vec());
    assert_eq!(code, 0);
}

/// Options come first, then the end-of-options separator, then the
/// positional arguments; empty positionals are skipped but the
/// separator stays.
#[test]
fn separator_before_positionals() {
    let x = hglib::clone::Arg::default();
    assert_eq!(
        x.to_args(),
        vec!["clone".to_string(), "--".to_string(), ".".to_string()]
    );

    let x = hglib::init::Arg {
        dest: "mydir",
        ..Default::default()
    };
    assert_eq!(
        x.to_args(),
        vec!["init".to_string(), "--".to_string(), "mydir".to_string()]
    );

    let x = hglib::add::Arg {
        files: &["-x", "b"],
        dryrun: true,
        ..Default::default()
    };
    assert_eq!(
        x.to_args(),
        vec![
            "add".to_string(),
            "-n".to_string(),
            "--".to_string(),
            "-x".to_string(),
            "b".to_string()
        ]
    );

    // a command with no caller positionals still ends its options
    let x = hglib::status::Arg::default();
    let args = x.to_args();
    assert_eq!(args[0], "status");
    assert_eq!(args[args.len() - 2], "--print0");
    assert_eq!(args[args.len() - 1], "--");

    // an empty caller list sends no separator at all
    let x = hglib::add::Arg::default();
    assert_eq!(x.to_args(), vec!["add".to_string()]);
}

/// The playback runner records the encoded request and leaves its
/// state untouched when the arguments cannot be encoded.
#[test]
fn playback_records_requests() {
    let mut server = Playback::new();
    server.feed_result(0);
    server
        .runcommand(&request(&["version", "-q", "--"]), &mut None::<NoPrompt>)
        .unwrap();
    assert_eq!(server.sent.len(), 1);
    let expected = codec::encode_request(&vec![
        b"version".to_vec(),
        b"-q".to_vec(),
        b"--".to_vec(),
    ])
    .unwrap();
    assert_eq!(server.sent[0], expected);

    let err = server
        .runcommand(&Vec::new(), &mut None::<NoPrompt>)
        .unwrap_err();
    assert_eq!(err.code, -1);
    assert_eq!(server.sent.len(), 1);
}

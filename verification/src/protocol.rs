//! The channel dispatcher: the state machine that interprets the
//! response frames of one request.
//!
//! A response is a run of frames, each a one-byte channel tag and a
//! 4-byte big-endian length.  Output and error frames carry that many
//! payload bytes, which accumulate onto the output and error buffers.
//! An input-request frame carries no payload; its length says how many
//! bytes the server will accept, and the client answers with a 4-byte
//! length and a buffer.  The result frame carries a big-endian signed
//! 32-bit code and ends the exchange.

use crate::client::HglibError;
use crate::client::Prompt;
use crate::codec::be32_bytes;
use crate::codec::be32_signed_val;
use crate::codec::be32_val;
use crate::codec::be_to_i32;
use crate::codec::be_to_u32;
use crate::codec::lemma_be32_roundtrip;
use crate::codec::u32_to_be;
use crate::scan::append_bytes;
use crate::scan::contains_bytes;
use crate::scan::dec_digits;
use crate::scan::dec_u64;
use crate::scan::find_byte;
use crate::scan::spec_contains;
use crate::scan::spec_find;
use crate::scan::spec_starts_with;
use crate::scan::starts_with;
use crate::scan::utf8_to_string;
use vstd::prelude::*;
use vstd::slice::slice_subrange;
use vstd::slice::slice_to_vec;
use vstd::string::StringExecFns;
use vstd::utf8::encode_utf8;
use vstd::utf8::valid_utf8;

verus! {

/// The semantic category of a frame, told apart by its tag byte:
/// `o` output data, `e` error data, `r` the terminal result, `L` a
/// line-oriented input request, `I` a block-oriented input request.
pub enum Channel {
    Output,
    Error,
    Result,
    InputLine,
    InputBlock,
}

/// The tag byte of the output channel, `o`.
pub open spec fn tag_output() -> u8 {
    111
}

/// The tag byte of the error channel, `e`.
pub open spec fn tag_error() -> u8 {
    101
}

/// The tag byte of the result channel, `r`.
pub open spec fn tag_result() -> u8 {
    114
}

/// The tag byte of a line-oriented input request, `L`.
pub open spec fn tag_input_line() -> u8 {
    76
}

/// The tag byte of a block-oriented input request, `I`.
pub open spec fn tag_input_block() -> u8 {
    73
}

/// Classify a tag byte; anything outside the five known tags is a
/// protocol error.
pub fn channel_of(tag: u8) -> (r: Option<Channel>)
    ensures
        tag == tag_output() ==> (r matches Some(c) && c is Output),
        tag == tag_error() ==> (r matches Some(c) && c is Error),
        tag == tag_result() ==> (r matches Some(c) && c is Result),
        tag == tag_input_line() ==> (r matches Some(c) && c is InputLine),
        tag == tag_input_block() ==> (r matches Some(c) && c is InputBlock),
        tag != tag_output() && tag != tag_error() && tag != tag_result() && tag != tag_input_line()
            && tag != tag_input_block() ==> r is None,
{
    if tag == 111 {
        Some(Channel::Output)
    } else if tag == 101 {
        Some(Channel::Error)
    } else if tag == 114 {
        Some(Channel::Result)
    } else if tag == 76 {
        Some(Channel::InputLine)
    } else if tag == 73 {
        Some(Channel::InputBlock)
    } else {
        None
    }
}

/// What the dispatcher has decided after reading from one position of
/// a response stream with given output and error accumulators: the
/// exchange is done with a result code, the server asks for input, or
/// the stream is malformed.
pub enum SpecStep {
    Done { out: Seq<u8>, err: Seq<u8>, code: int, end: int },
    Input { out: Seq<u8>, err: Seq<u8>, line: bool, size: int, next: int },
    Fail { msg: Seq<char>, end: int },
}

/// The message of a response that ends inside a frame.
pub open spec fn msg_truncated() -> Seq<char> {
    "truncated server response"@
}

/// The message of a result frame whose length field cannot hold a
/// 32-bit code.
pub open spec fn msg_bad_result() -> Seq<char> {
    "invalid result frame length"@
}

/// The message of a frame with an unknown channel tag.
pub open spec fn msg_invalid_channel(tag: u8) -> Seq<char> {
    "Hglib error: invalid channel "@ + dec_digits(tag as int)
}

/// The message of an input request that arrives with no prompt
/// supplied.
pub open spec fn msg_missing_prompt() -> Seq<char> {
    "Hglib error: something is expected on stdin, please implement a Prompt"@
}

/// The message of a prompt reply too large for its 4-byte length
/// field.
pub open spec fn msg_reply_too_large() -> Seq<char> {
    "prompt reply too large to frame"@
}

/// The message used in place of command output that is not valid
/// UTF-8.
pub open spec fn msg_invalid_utf8() -> Seq<char> {
    "invalid utf-8 in command output"@
}

/// The dispatcher under a given sequence of prompt replies, one frame
/// at a time: it reads the header at `pos`, accumulates data frames,
/// answers each input request with the next reply of `bufs`, and stops
/// at the result frame, at a malformed frame, at a reply too large to
/// frame, or at an input request once the replies run out.
pub open spec fn spec_session(
    s: Seq<u8>,
    pos: int,
    out: Seq<u8>,
    err: Seq<u8>,
    bufs: Seq<Seq<u8>>,
) -> SpecStep
    decreases s.len() - pos,
{
    if pos < 0 || pos + 5 > s.len() {
        SpecStep::Fail { msg: msg_truncated(), end: s.len() as int }
    } else {
        let tag = s[pos];
        let len = be32_val(s[pos + 1], s[pos + 2], s[pos + 3], s[pos + 4]);
        let body = pos + 5;
        if tag == tag_output() {
            if body + len > s.len() {
                SpecStep::Fail { msg: msg_truncated(), end: s.len() as int }
            } else {
                spec_session(s, body + len, out + s.subrange(body, body + len), err, bufs)
            }
        } else if tag == tag_error() {
            if body + len > s.len() {
                SpecStep::Fail { msg: msg_truncated(), end: s.len() as int }
            } else {
                spec_session(s, body + len, out, err + s.subrange(body, body + len), bufs)
            }
        } else if tag == tag_result() {
            if len < 4 {
                SpecStep::Fail { msg: msg_bad_result(), end: body }
            } else if body + len > s.len() {
                SpecStep::Fail { msg: msg_truncated(), end: s.len() as int }
            } else {
                SpecStep::Done {
                    out,
                    err,
                    code: be32_signed_val(s[body], s[body + 1], s[body + 2], s[body + 3]),
                    end: body + len,
                }
            }
        } else if tag == tag_input_line() || tag == tag_input_block() {
            if bufs.len() == 0 {
                SpecStep::Input {
                    out,
                    err,
                    line: tag == tag_input_line(),
                    size: len,
                    next: body,
                }
            } else if bufs[0].len() >= 0x100000000 {
                SpecStep::Fail { msg: msg_reply_too_large(), end: body }
            } else {
                spec_session(s, body, out, err, bufs.drop_first())
            }
        } else {
            SpecStep::Fail { msg: msg_invalid_channel(tag), end: body }
        }
    }
}

/// The bytes written back to the server under a sequence of prompt
/// replies: a length-framed reply per input request answered, nothing
/// for any other frame or stop.
pub open spec fn spec_session_written(s: Seq<u8>, pos: int, bufs: Seq<Seq<u8>>) -> Seq<u8>
    decreases s.len() - pos,
{
    if pos < 0 || pos + 5 > s.len() {
        Seq::empty()
    } else {
        let tag = s[pos];
        let len = be32_val(s[pos + 1], s[pos + 2], s[pos + 3], s[pos + 4]);
        let body = pos + 5;
        if tag == tag_output() || tag == tag_error() {
            if body + len > s.len() {
                Seq::empty()
            } else {
                spec_session_written(s, body + len, bufs)
            }
        } else if tag == tag_input_line() || tag == tag_input_block() {
            if bufs.len() == 0 {
                Seq::empty()
            } else if bufs[0].len() >= 0x100000000 {
                Seq::empty()
            } else {
                spec_input_reply(bufs[0]) + spec_session_written(s, body, bufs.drop_first())
            }
        } else {
            Seq::empty()
        }
    }
}

/// The dispatcher with no prompt replies at hand: it stops at the
/// first input request.
pub open spec fn spec_engine(s: Seq<u8>, pos: int, out: Seq<u8>, err: Seq<u8>) -> SpecStep {
    spec_session(s, pos, out, err, Seq::empty())
}

/// The reply written for one satisfied input request: a 4-byte
/// big-endian length and the buffer itself.
pub open spec fn spec_input_reply(buf: Seq<u8>) -> Seq<u8> {
    be32_bytes(buf.len() as int) + buf
}

/// Build the reply for one input request.
pub fn input_reply(buf: &Vec<u8>) -> (r: Vec<u8>)
    requires
        buf@.len() < 0x100000000,
    ensures
        r@ == spec_input_reply(buf@),
{
    let mut r = u32_to_be(buf.len() as u32);
    append_bytes(&mut r, buf.as_slice());
    r
}

/// The error raised when the server asks for input and no prompt was
/// supplied.
pub fn missing_prompt_error() -> (e: HglibError)
    ensures
        e.code == -1,
        e.out is None,
        e.msg@ == msg_missing_prompt(),
{
    HglibError::from_str(
        "Hglib error: something is expected on stdin, please implement a Prompt",
    )
}

/// Turn the terminal frame's payload and the accumulated output into
/// the request's outcome: a payload shorter than the 32-bit code is a
/// protocol error, code 0 returns the output, and any other code is an
/// error carrying the code, the output, and a message decoded from it.
pub fn finish_result(payload: &Vec<u8>, out: Vec<u8>) -> (r: Result<(Vec<u8>, i32), HglibError>)
    ensures
        payload@.len() < 4 ==> (r matches Err(e) && e.code == -1 && e.out is None && e.msg@
            == msg_bad_result()),
        payload@.len() >= 4 ==> ({
            let code = be32_signed_val(payload@[0], payload@[1], payload@[2], payload@[3]);
            &&& (code == 0 ==> (r matches Ok(v) && v.0@ == out@ && v.1 as int == code))
            &&& (code != 0 ==> (r matches Err(e) && e.code as int == code && (e.out matches Some(o)
                && o@ == out@) && (valid_utf8(out@) ==> encode_utf8(e.msg@) == out@) && (
            !valid_utf8(out@) ==> e.msg@ == msg_invalid_utf8())))
        }),
{
    if payload.len() < 4 {
        return Err(HglibError::from_str("invalid result frame length"));
    }
    let code = be_to_i32(payload[0], payload[1], payload[2], payload[3]);
    if code == 0 {
        Ok((out, code))
    } else {
        let out_copy = slice_to_vec(out.as_slice());
        let msg = match utf8_to_string(&out) {
            Some(m) => m,
            None => String::from_str("invalid utf-8 in command output"),
        };
        Err(HglibError { code, out: Some(out_copy), msg })
    }
}

/// Run one whole exchange against an in-memory response stream,
/// starting at `start`.  Returns the outcome, the position after the
/// consumed bytes, and every byte written back to the server (input
/// replies).
///
/// Where the dispatcher finds the terminal result with no input
/// request on the way, the outcome is exact: code 0 returns the
/// accumulated output, any other code returns an error carrying the
/// code, the output, and a message decoded from the output.  An input
/// request with no prompt supplied writes a zero-length reply and
/// fails.  A malformed stream fails with the dispatcher's message.
#[verifier::rlimit(60)]
pub fn run_response<P: Prompt>(stream: &Vec<u8>, start: usize, prompt: &mut Option<P>) -> (r: (
    Result<(Vec<u8>, i32), HglibError>,
    usize,
    Vec<u8>,
))
    ensures
        ({
            let st = spec_engine(stream@, start as int, Seq::empty(), Seq::empty());
            &&& (st matches SpecStep::Done { out, err, code, end } ==> {
                &&& r.1 == end
                &&& r.2@ == Seq::<u8>::empty()
                &&& (code == 0 ==> (r.0 matches Ok(v) && v.0@ == out && v.1 == code))
                &&& (code != 0 ==> (r.0 matches Err(e) && e.code == code && (e.out matches Some(o)
                    && o@ == out) && (valid_utf8(out) ==> encode_utf8(e.msg@) == out) && (
                !valid_utf8(out) ==> e.msg@ == msg_invalid_utf8())))
            })
            &&& (st matches SpecStep::Fail { msg, end } ==> {
                &&& r.1 == end
                &&& r.2@ == Seq::<u8>::empty()
                &&& (r.0 matches Err(e) && e.code == -1 && e.out is None && e.msg@ == msg)
            })
            &&& (st matches SpecStep::Input { next, .. } ==> ((*old(prompt)) is None ==> {
                &&& r.1 == next
                &&& r.2@ == be32_bytes(0)
                &&& (r.0 matches Err(e) && e.code == -1 && e.out is None && e.msg@
                    == msg_missing_prompt())
            }))
        }),
        (*old(prompt)) is Some ==> (exists|bufs: Seq<Seq<u8>>|
            {
                let st = #[trigger] spec_session(stream@, start as int, Seq::empty(), Seq::empty(), bufs);
                &&& !(st is Input)
                &&& r.2@ == spec_session_written(stream@, start as int, bufs)
                &&& (st matches SpecStep::Done { out, err, code, end } ==> {
                    &&& r.1 == end
                    &&& (code == 0 ==> (r.0 matches Ok(v) && v.0@ == out && v.1 == code))
                    &&& (code != 0 ==> (r.0 matches Err(e) && e.code == code && (e.out matches Some(
                        o,
                    ) && o@ == out) && (valid_utf8(out) ==> encode_utf8(e.msg@) == out) && (
                    !valid_utf8(out) ==> e.msg@ == msg_invalid_utf8())))
                })
                &&& (st matches SpecStep::Fail { msg, end } ==> (r.1 == end && (r.0 matches Err(e)
                    && e.code == -1 && e.out is None && e.msg@ == msg)))
            }),
{
    let ghost s = stream@;
    let mut out: Vec<u8> = Vec::new();
    let mut err: Vec<u8> = Vec::new();
    let mut written: Vec<u8> = Vec::new();
    let mut pos: usize = start;
    let ghost mut clean: bool = true;
    let ghost mut done_bufs: Seq<Seq<u8>> = Seq::empty();
    let ghost prompt_was_some: bool = (*prompt) is Some;
    proof {
        assert(prompt_was_some == (*old(prompt)) is Some);
        assert forall|future: Seq<Seq<u8>>| #[trigger] (done_bufs + future) =~= future by {}
    }
    loop
        invariant
            s == stream@,
            pos == start || pos <= s.len(),
            prompt_was_some == (*old(prompt)) is Some,
            (*prompt) is Some == prompt_was_some,
            clean ==> spec_engine(s, start as int, Seq::empty(), Seq::empty()) == spec_engine(
                s,
                pos as int,
                out@,
                err@,
            ),
            clean ==> written@ == Seq::<u8>::empty(),
            !clean ==> (spec_engine(s, start as int, Seq::empty(), Seq::empty()) is Input)
                && prompt_was_some,
            forall|future: Seq<Seq<u8>>|
                spec_session(s, start as int, Seq::empty(), Seq::empty(), #[trigger] (done_bufs
                    + future)) == spec_session(s, pos as int, out@, err@, future),
            forall|future: Seq<Seq<u8>>|
                spec_session_written(s, start as int, #[trigger] (done_bufs + future)) == written@
                    + spec_session_written(s, pos as int, future),
        decreases s.len() - pos,
    {
        let ghost st0 = spec_engine(s, pos as int, out@, err@);
        if pos >= stream.len() || stream.len() - pos < 5 {
            proof {
                assert(st0 == SpecStep::Fail { msg: msg_truncated(), end: s.len() as int });
                assert(done_bufs + Seq::<Seq<u8>>::empty() =~= done_bufs);
                assert(written@ + Seq::<u8>::empty() =~= written@);
                assert(spec_session_written(s, pos as int, Seq::empty()) =~= Seq::<u8>::empty());
            }
            return (
                Err(HglibError::from_str("truncated server response")),
                stream.len(),
                written,
            );
        }
        let tag = stream[pos];
        let len32 = be_to_u32(stream[pos + 1], stream[pos + 2], stream[pos + 3], stream[pos + 4]);
        let len = len32 as usize;
        let body = pos + 5;
        match channel_of(tag) {
            Some(Channel::Output) => {
                if len > stream.len() - body {
                    proof {
                        assert(st0 == SpecStep::Fail { msg: msg_truncated(), end: s.len() as int });
                        assert(done_bufs + Seq::<Seq<u8>>::empty() =~= done_bufs);
                        assert(written@ + Seq::<u8>::empty() =~= written@);
                        assert(spec_session_written(s, pos as int, Seq::empty())
                            =~= Seq::<u8>::empty());
                    }
                    return (
                        Err(HglibError::from_str("truncated server response")),
                        stream.len(),
                        written,
                    );
                }
                let ghost out0 = out@;
                let payload = slice_subrange(stream.as_slice(), body, body + len);
                append_bytes(&mut out, payload);
                proof {
                    assert(out@ == out0 + s.subrange(body as int, body + len as int));
                    assert(st0 == spec_engine(s, body + len as int, out@, err@));
                    assert forall|future: Seq<Seq<u8>>|
                        spec_session(s, start as int, Seq::empty(), Seq::empty(), #[trigger] (
                        done_bufs + future)) == spec_session(
                        s,
                        body + len as int,
                        out@,
                        err@,
                        future,
                    ) by {
                        assert(spec_session(s, pos as int, out0, err@, future) == spec_session(
                            s,
                            body + len as int,
                            out@,
                            err@,
                            future,
                        ));
                    }
                    assert forall|future: Seq<Seq<u8>>|
                        spec_session_written(s, start as int, #[trigger] (done_bufs + future))
                            == written@ + spec_session_written(s, body + len as int, future) by {
                        assert(spec_session_written(s, pos as int, future) == spec_session_written(
                            s,
                            body + len as int,
                            future,
                        ));
                    }
                }
                pos = body + len;
            },
            Some(Channel::Error) => {
                if len > stream.len() - body {
                    proof {
                        assert(st0 == SpecStep::Fail { msg: msg_truncated(), end: s.len() as int });
                        assert(done_bufs + Seq::<Seq<u8>>::empty() =~= done_bufs);
                        assert(written@ + Seq::<u8>::empty() =~= written@);
                        assert(spec_session_written(s, pos as int, Seq::empty())
                            =~= Seq::<u8>::empty());
                    }
                    return (
                        Err(HglibError::from_str("truncated server response")),
                        stream.len(),
                        written,
                    );
                }
                let ghost err0 = err@;
                let payload = slice_subrange(stream.as_slice(), body, body + len);
                append_bytes(&mut err, payload);
                proof {
                    assert(err@ == err0 + s.subrange(body as int, body + len as int));
                    assert(st0 == spec_engine(s, body + len as int, out@, err@));
                    assert forall|future: Seq<Seq<u8>>|
                        spec_session(s, start as int, Seq::empty(), Seq::empty(), #[trigger] (
                        done_bufs + future)) == spec_session(
                        s,
                        body + len as int,
                        out@,
                        err@,
                        future,
                    ) by {
                        assert(spec_session(s, pos as int, out@, err0, future) == spec_session(
                            s,
                            body + len as int,
                            out@,
                            err@,
                            future,
                        ));
                    }
                    assert forall|future: Seq<Seq<u8>>|
                        spec_session_written(s, start as int, #[trigger] (done_bufs + future))
                            == written@ + spec_session_written(s, body + len as int, future) by {
                        assert(spec_session_written(s, pos as int, future) == spec_session_written(
                            s,
                            body + len as int,
                            future,
                        ));
                    }
                }
                pos = body + len;
            },
            Some(Channel::Result) => {
                if len < 4 {
                    proof {
                        assert(st0 == SpecStep::Fail { msg: msg_bad_result(), end: body as int });
                        assert(done_bufs + Seq::<Seq<u8>>::empty() =~= done_bufs);
                        assert(written@ + Seq::<u8>::empty() =~= written@);
                        assert(spec_session_written(s, pos as int, Seq::empty())
                            =~= Seq::<u8>::empty());
                    }
                    return (
                        Err(HglibError::from_str("invalid result frame length")),
                        body,
                        written,
                    );
                }
                if len > stream.len() - body {
                    proof {
                        assert(st0 == SpecStep::Fail { msg: msg_truncated(), end: s.len() as int });
                        assert(done_bufs + Seq::<Seq<u8>>::empty() =~= done_bufs);
                        assert(written@ + Seq::<u8>::empty() =~= written@);
                        assert(spec_session_written(s, pos as int, Seq::empty())
                            =~= Seq::<u8>::empty());
                    }
                    return (
                        Err(HglibError::from_str("truncated server response")),
                        stream.len(),
                        written,
                    );
                }
                let payload = slice_to_vec(slice_subrange(stream.as_slice(), body, body + len));
                proof {
                    assert(payload@[0] == s[body as int] && payload@[1] == s[body + 1] && payload@[2]
                        == s[body + 2] && payload@[3] == s[body + 3]);
                    assert(st0 == SpecStep::Done {
                        out: out@,
                        err: err@,
                        code: be32_signed_val(payload@[0], payload@[1], payload@[2], payload@[3]),
                        end: body + len as int,
                    });
                    assert(done_bufs + Seq::<Seq<u8>>::empty() =~= done_bufs);
                    assert(written@ + Seq::<u8>::empty() =~= written@);
                    assert(spec_session_written(s, pos as int, Seq::empty())
                        =~= Seq::<u8>::empty());
                }
                let outcome = finish_result(&payload, out);
                return (outcome, body + len, written);
            },
            Some(Channel::InputLine) | Some(Channel::InputBlock) => {
                proof {
                    assert(spec_engine(s, start as int, Seq::empty(), Seq::empty()) is Input);
                }
                match prompt {
                    Some(p) => {
                        proof {
                            clean = false;
                        }
                        let buf = p.call(len);
                        if buf.len() as u64 > 0xFFFFFFFFu64 {
                            proof {
                                let w = done_bufs.push(buf@);
                                assert(done_bufs + seq![buf@] =~= w);
                                assert(spec_session(s, pos as int, out@, err@, seq![buf@])
                                    == SpecStep::Fail {
                                    msg: msg_reply_too_large(),
                                    end: body as int,
                                });
                                assert(spec_session_written(s, pos as int, seq![buf@])
                                    =~= Seq::<u8>::empty());
                                assert(written@ + Seq::<u8>::empty() =~= written@);
                                assert(spec_session(s, start as int, Seq::empty(), Seq::empty(), w)
                                    == SpecStep::Fail {
                                    msg: msg_reply_too_large(),
                                    end: body as int,
                                });
                                assert(spec_session_written(s, start as int, w) == written@);
                            }
                            return (
                                Err(HglibError::from_str("prompt reply too large to frame")),
                                body,
                                written,
                            );
                        }
                        let ghost written0 = written@;
                        let ghost prev_bufs = done_bufs;
                        let reply = input_reply(&buf);
                        append_bytes(&mut written, reply.as_slice());
                        proof {
                            done_bufs = done_bufs.push(buf@);
                            assert forall|future: Seq<Seq<u8>>|
                                spec_session(s, start as int, Seq::empty(), Seq::empty(), #[trigger] (
                                done_bufs + future)) == spec_session(
                                s,
                                body as int,
                                out@,
                                err@,
                                future,
                            ) by {
                                assert(done_bufs + future =~= prev_bufs + (seq![buf@] + future));
                                assert((seq![buf@] + future)[0] == buf@);
                                assert((seq![buf@] + future).drop_first() =~= future);
                                assert(spec_session(s, pos as int, out@, err@, seq![buf@] + future)
                                    == spec_session(s, body as int, out@, err@, future));
                            }
                            assert forall|future: Seq<Seq<u8>>|
                                spec_session_written(s, start as int, #[trigger] (done_bufs
                                    + future)) == written@ + spec_session_written(
                                s,
                                body as int,
                                future,
                            ) by {
                                assert(done_bufs + future =~= prev_bufs + (seq![buf@] + future));
                                assert((seq![buf@] + future)[0] == buf@);
                                assert((seq![buf@] + future).drop_first() =~= future);
                                assert(spec_session_written(s, pos as int, seq![buf@] + future)
                                    == spec_input_reply(buf@) + spec_session_written(
                                    s,
                                    body as int,
                                    future,
                                ));
                                assert(written0 + (spec_input_reply(buf@) + spec_session_written(
                                    s,
                                    body as int,
                                    future,
                                )) =~= written@ + spec_session_written(s, body as int, future));
                            }
                        }
                        pos = body;
                    },
                    None => {
                        proof {
                            assert(st0 matches SpecStep::Input { next, .. } && next == body as int);
                        }
                        let empty_reply: Vec<u8> = Vec::new();
                        let zero = input_reply(&empty_reply);
                        append_bytes(&mut written, zero.as_slice());
                        proof {
                            assert(written@ =~= be32_bytes(0));
                        }
                        return (Err(missing_prompt_error()), body, written);
                    },
                }
            },
            None => {
                proof {
                    assert(st0 == SpecStep::Fail {
                        msg: msg_invalid_channel(tag),
                        end: body as int,
                    });
                    assert(done_bufs + Seq::<Seq<u8>>::empty() =~= done_bufs);
                    assert(written@ + Seq::<u8>::empty() =~= written@);
                    assert(spec_session_written(s, pos as int, Seq::empty())
                        =~= Seq::<u8>::empty());
                }
                let mut m = String::from_str("Hglib error: invalid channel ");
                m.append(dec_u64(tag as u64).as_str());
                return (Err(HglibError { code: -1, out: None, msg: m }), body, written);
            },
        }
    }
}

} // verus!

verus! {

/// One frame on the wire: a tag byte, a 4-byte big-endian length, and
/// the payload.
pub open spec fn spec_frame(tag: u8, payload: Seq<u8>) -> Seq<u8> {
    seq![tag] + be32_bytes(payload.len() as int) + payload
}

/// The terminal result frame carrying a signed 32-bit code.
pub open spec fn spec_result_frame(code: int) -> Seq<u8> {
    seq![tag_result()] + be32_bytes(4) + be32_bytes(
        if code >= 0 {
            code
        } else {
            code + 0x100000000
        },
    )
}

/// An input-request frame: a header only, whose length field is the
/// number of bytes the server will accept.
pub open spec fn spec_input_frame(line: bool, size: int) -> Seq<u8> {
    seq![
        if line {
            tag_input_line()
        } else {
            tag_input_block()
        },
    ] + be32_bytes(size)
}

/// Build one data-carrying frame with the given tag.
pub fn data_frame(tag: u8, payload: &Vec<u8>) -> (r: Vec<u8>)
    requires
        payload@.len() < 0x100000000,
    ensures
        r@ == spec_frame(tag, payload@),
{
    let mut r: Vec<u8> = Vec::new();
    r.push(tag);
    let mut len_field = u32_to_be(payload.len() as u32);
    r.append(&mut len_field);
    append_bytes(&mut r, payload.as_slice());
    proof {
        assert(r@ =~= spec_frame(tag, payload@));
    }
    r
}

/// Build the terminal result frame for a code.
pub fn result_frame(code: i32) -> (r: Vec<u8>)
    ensures
        r@ == spec_result_frame(code as int),
{
    let mut r: Vec<u8> = Vec::new();
    r.push(114u8);
    let mut len_field = u32_to_be(4);
    r.append(&mut len_field);
    let mut code_field = crate::codec::i32_to_be(code);
    r.append(&mut code_field);
    proof {
        assert(r@ =~= spec_result_frame(code as int));
    }
    r
}

/// Build one input-request frame.
pub fn input_frame(line: bool, size: u32) -> (r: Vec<u8>)
    ensures
        r@ == spec_input_frame(line, size as int),
{
    let mut r: Vec<u8> = Vec::new();
    if line {
        r.push(76u8);
    } else {
        r.push(73u8);
    }
    let mut len_field = u32_to_be(size);
    r.append(&mut len_field);
    proof {
        assert(r@ =~= spec_input_frame(line, size as int));
    }
    r
}

/// A run of output frames, one per payload, in order.
pub open spec fn output_frames(payloads: Seq<Seq<u8>>) -> Seq<u8>
    decreases payloads.len(),
{
    if payloads.len() == 0 {
        Seq::empty()
    } else {
        spec_frame(tag_output(), payloads[0]) + output_frames(payloads.drop_first())
    }
}

/// The payloads of a run of frames, concatenated in order.
pub open spec fn concat_payloads(payloads: Seq<Seq<u8>>) -> Seq<u8>
    decreases payloads.len(),
{
    if payloads.len() == 0 {
        Seq::empty()
    } else {
        payloads[0] + concat_payloads(payloads.drop_first())
    }
}

/// The dispatcher over a run of output frames followed by the result:
/// it accumulates each payload in order and ends on the code.
proof fn lemma_engine_output_run(
    s: Seq<u8>,
    pos: int,
    out: Seq<u8>,
    err: Seq<u8>,
    payloads: Seq<Seq<u8>>,
    code: int,
)
    requires
        0 <= pos <= s.len(),
        s.skip(pos) == output_frames(payloads) + spec_result_frame(code),
        forall|i: int| 0 <= i < payloads.len() ==> (#[trigger] payloads[i]).len() < 0x100000000,
        -0x80000000 <= code < 0x80000000,
    ensures
        spec_engine(s, pos, out, err) == (SpecStep::Done {
            out: out + concat_payloads(payloads),
            err,
            code,
            end: s.len() as int,
        }),
    decreases payloads.len(),
{
    let tail = s.skip(pos);
    let repr = if code >= 0 {
        code
    } else {
        code + 0x100000000
    };
    lemma_be32_roundtrip(4);
    lemma_be32_roundtrip(repr);
    if payloads.len() == 0 {
        let rf = spec_result_frame(code);
        assert(tail =~= rf);
        assert(tail.len() == 9);
        assert(forall|j: int| 0 <= j < 9 ==> s[pos + j] == #[trigger] tail[j]);
        assert(tail[0] == tag_result());
        assert(tail[1] == be32_bytes(4)[0]);
        assert(tail[2] == be32_bytes(4)[1]);
        assert(tail[3] == be32_bytes(4)[2]);
        assert(tail[4] == be32_bytes(4)[3]);
        assert(be32_val(s[pos + 1], s[pos + 2], s[pos + 3], s[pos + 4]) == 4);
        assert(tail[5] == be32_bytes(repr)[0]);
        assert(tail[6] == be32_bytes(repr)[1]);
        assert(tail[7] == be32_bytes(repr)[2]);
        assert(tail[8] == be32_bytes(repr)[3]);
        assert(be32_val(s[pos + 5], s[pos + 6], s[pos + 7], s[pos + 8]) == repr);
        assert(be32_signed_val(s[pos + 5], s[pos + 6], s[pos + 7], s[pos + 8]) == code);
        assert(out + concat_payloads(payloads) =~= out);
        assert(pos + 9 == s.len());
    } else {
        let q = payloads[0];
        let rest = output_frames(payloads.drop_first()) + spec_result_frame(code);
        let fr = seq![tag_output()] + be32_bytes(q.len() as int) + q;
        assert(tail =~= fr + rest);
        lemma_be32_roundtrip(q.len() as int);
        assert(forall|j: int| 0 <= j < tail.len() ==> s[pos + j] == #[trigger] tail[j]);
        assert(tail[0] == tag_output());
        assert(tail[1] == be32_bytes(q.len() as int)[0]);
        assert(tail[2] == be32_bytes(q.len() as int)[1]);
        assert(tail[3] == be32_bytes(q.len() as int)[2]);
        assert(tail[4] == be32_bytes(q.len() as int)[3]);
        assert(be32_val(s[pos + 1], s[pos + 2], s[pos + 3], s[pos + 4]) == q.len());
        let body = pos + 5;
        assert(body + q.len() <= s.len());
        assert(s.subrange(body, body + q.len()) =~= q) by {
            assert(forall|j: int|
                0 <= j < q.len() ==> #[trigger] s.subrange(body, body + q.len())[j] == tail[5
                    + j]);
            assert(forall|j: int| 0 <= j < q.len() ==> #[trigger] tail[5 + j] == q[j]);
        }
        assert(s.skip(body + q.len()) =~= rest) by {
            assert(forall|j: int|
                0 <= j < rest.len() ==> #[trigger] s.skip(body + q.len())[j] == tail[5 + q.len()
                    + j]);
            assert(forall|j: int|
                0 <= j < rest.len() ==> #[trigger] tail[5 + q.len() + j] == rest[j]);
        }
        lemma_engine_output_run(s, body + q.len(), out + q, err, payloads.drop_first(), code);
        assert((out + q) + concat_payloads(payloads.drop_first()) =~= out + concat_payloads(
            payloads,
        ));
        assert(spec_engine(s, pos, out, err) == spec_engine(s, body + q.len(), out + q, err));
    }
}

/// Multi-frame accumulation: however the server splits its output
/// across frames, the final output buffer is the concatenation of the
/// payloads in arrival order, and the exchange ends on the result
/// code.
pub proof fn lemma_multi_frame_accumulation(payloads: Seq<Seq<u8>>, code: int)
    requires
        forall|i: int| 0 <= i < payloads.len() ==> (#[trigger] payloads[i]).len() < 0x100000000,
        -0x80000000 <= code < 0x80000000,
    ensures
        ({
            let s = output_frames(payloads) + spec_result_frame(code);
            spec_engine(s, 0, Seq::empty(), Seq::empty()) == (SpecStep::Done {
                out: concat_payloads(payloads),
                err: Seq::empty(),
                code,
                end: s.len() as int,
            })
        }),
{
    let s = output_frames(payloads) + spec_result_frame(code);
    assert(s.skip(0) =~= s);
    lemma_engine_output_run(s, 0, Seq::empty(), Seq::empty(), payloads, code);
    assert(Seq::<u8>::empty() + concat_payloads(payloads) =~= concat_payloads(payloads));
}

/// The marker expected on the first line of the hello frame.
pub open spec fn capabilities_marker() -> Seq<u8> {
    encode_utf8("capabilities: "@)
}

/// The marker expected at the start of the second line of the hello
/// frame.
pub open spec fn encoding_marker() -> Seq<u8> {
    encode_utf8("encoding: "@)
}

/// The first line of a hello payload.
pub open spec fn hello_line0(p: Seq<u8>) -> Seq<u8> {
    p.take(spec_find(p, 10, 0))
}

/// The second line of a hello payload.
pub open spec fn hello_line1(p: Seq<u8>) -> Seq<u8> {
    let rest = p.skip(spec_find(p, 10, 0) + 1);
    rest.take(spec_find(rest, 10, 0))
}

/// The negotiated encoding: what follows `encoding: ` on the second
/// line.
pub open spec fn hello_encoding(p: Seq<u8>) -> Seq<u8> {
    hello_line1(p).skip(encoding_marker().len() as int)
}

/// Whether a frame is a well-formed hello: on the output channel,
/// valid UTF-8, with a capabilities declaration on its first line and
/// an encoding declaration on its second.
pub open spec fn hello_ok(chan: u8, p: Seq<u8>) -> bool {
    &&& chan == tag_output()
    &&& valid_utf8(p)
    &&& spec_find(p, 10, 0) < p.len()
    &&& spec_contains(hello_line0(p), capabilities_marker())
    &&& spec_starts_with(hello_line1(p), encoding_marker())
    &&& valid_utf8(hello_encoding(p))
}

/// Validate the hello frame and extract the negotiated encoding.
///
/// The frame must arrive on the output channel and carry UTF-8 text
/// whose first line declares capabilities and whose second line reads
/// `encoding: <value>`; the `<value>` is returned.  Anything else
/// fails the handshake.
pub fn parse_hello(chan: u8, payload: &Vec<u8>) -> (r: Result<String, HglibError>)
    ensures
        r is Ok <==> hello_ok(chan, payload@),
        r matches Ok(enc) ==> encode_utf8(enc@) == hello_encoding(payload@),
{
    if chan != 111 {
        return Err(HglibError::from_str("Cannot read hello"));
    }
    if utf8_to_string(payload).is_none() {
        return Err(HglibError::from_str("Cannot read hello: invalid utf-8"));
    }
    let nl0 = find_byte(payload.as_slice(), 10, 0);
    if nl0 == payload.len() {
        return Err(HglibError::from_str("Cannot read hello: no encoding"));
    }
    proof {
        crate::scan::lemma_find(payload@, 10, 0);
    }
    let line0 = slice_subrange(payload.as_slice(), 0, nl0);
    if !contains_bytes(line0, "capabilities: ".as_bytes()) {
        return Err(HglibError::from_str("Cannot read hello: no capabilities"));
    }
    let ghost rest = payload@.skip(nl0 + 1);
    let nl1 = find_byte(payload.as_slice(), 10, nl0 + 1);
    proof {
        crate::scan::lemma_find(payload@, 10, nl0 + 1);
        assert(spec_find(rest, 10, 0) == spec_find(payload@, 10, nl0 + 1) - nl0 - 1) by {
            lemma_find_skip(payload@, 10, nl0 + 1);
        }
    }
    let line1 = slice_subrange(payload.as_slice(), nl0 + 1, nl1);
    proof {
        assert(line1@ =~= hello_line1(payload@));
    }
    let encm = "encoding: ".as_bytes();
    if !starts_with(line1, encm) {
        return Err(HglibError::from_str("Cannot read hello: no encoding"));
    }
    let enc_slice = slice_subrange(line1, encm.len(), line1.len());
    proof {
        assert(enc_slice@ =~= hello_encoding(payload@));
    }
    let enc_vec = slice_to_vec(enc_slice);
    match utf8_to_string(&enc_vec) {
        Some(s) => Ok(s),
        None => Err(HglibError::from_str("Cannot read hello: invalid utf-8")),
    }
}

/// `spec_find` looked at from a suffix: searching the suffix is the
/// search of the whole, shifted.
proof fn lemma_find_skip(s: Seq<u8>, b: u8, from: int)
    requires
        0 <= from <= s.len(),
    ensures
        spec_find(s.skip(from), b, 0) == spec_find(s, b, from) - from,
{
    crate::scan::lemma_find(s, b, from);
    crate::scan::lemma_find(s.skip(from), b, 0);
    let whole = spec_find(s, b, from);
    let sub = spec_find(s.skip(from), b, 0);
    if sub < whole - from {
        assert(s[from + sub] == s.skip(from)[sub]);
        assert(false);
    }
    if whole - from < sub {
        assert(s.skip(from)[whole - from] == s[whole]);
        assert(false);
    }
}

} // verus!

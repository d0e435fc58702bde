//! The error and result model of the command server, and the traits
//! through which commands reach a server.

use vstd::prelude::*;
use vstd::string::StrSliceExecFns;
use vstd::string::StringExecFns;

verus! {

/// The error carried by every fallible operation of the library.
///
/// `code` is the result code of the command server (`-1` for errors
/// raised by the library itself), `out` the output captured before the
/// failure, if any, and `msg` a human-readable description.
#[derive(Debug)]
pub struct HglibError {
    pub code: i32,
    pub out: Option<Vec<u8>>,
    pub msg: String,
}

impl HglibError {
    /// A library-level error: code `-1`, no captured output.
    pub fn from_str(msg: &str) -> (e: HglibError)
        ensures
            e.code == -1,
            e.out is None,
            e.msg@ == msg@,
    {
        HglibError { code: -1, out: None, msg: String::from_str(msg) }
    }

    /// The boolean convenience mapping over a raw outcome: code 0 means
    /// `true`, code 1 is a benign negative and means `false`, any other
    /// code is passed through as the error itself.
    pub fn handle_err(x: Result<(Vec<u8>, i32), HglibError>) -> (r: Result<bool, HglibError>)
        ensures
            x matches Ok(v) ==> r == Ok::<bool, HglibError>(v.1 == 0),
            x matches Err(e) ==> (if e.code == 0 {
                r == Ok::<bool, HglibError>(true)
            } else if e.code == 1 {
                r == Ok::<bool, HglibError>(false)
            } else {
                r == Err::<bool, HglibError>(e)
            }),
    {
        match x {
            Ok((_, code)) => Ok(code == 0),
            Err(err) => {
                if err.code == 0 {
                    Ok(true)
                } else if err.code == 1 {
                    Ok(false)
                } else {
                    Err(err)
                }
            },
        }
    }
}

/// A source of interactive input: when the server asks for up to `size`
/// bytes on an input channel, `call` produces the bytes to send back.
pub trait Prompt {
    fn call(&mut self, size: usize) -> Vec<u8>;
}

/// A prompt that never has anything to say; the type to name when a
/// command is run without interactive input.
pub struct NoPrompt {}

impl Prompt for NoPrompt {
    fn call(&mut self, _size: usize) -> (r: Vec<u8>) {
        Vec::new()
    }
}

/// Anything that can run one command-server request: an ordered,
/// non-empty argument list in, captured output bytes and a result code
/// out.  Code 0 is returned as `Ok`; any other code arrives as an
/// `Err` whose `code` and `out` fields carry it.
pub trait Runner {
    fn runcommand<P: Prompt>(
        &mut self,
        args: &Vec<String>,
        prompt: &mut Option<P>,
    ) -> Result<(Vec<u8>, i32), HglibError>;
}

/// A marker for one-shot invocations that spawn a fresh process per
/// command instead of keeping a server alive.  The process handling
/// itself lives outside the library.
pub struct Basic {}

/// A `Runner` over an in-memory byte stream: requests are encoded and
/// recorded, and responses are read from a pre-arranged feed of
/// frames, exactly as the dispatcher would read them off the wire.
pub struct Playback {
    /// The framed response bytes still to be served, in arrival order.
    pub feed: Vec<u8>,
    /// How much of the feed earlier requests have consumed.
    pub pos: usize,
    /// The encoded request of every `runcommand` call, in order.
    pub sent: Vec<Vec<u8>>,
    /// Every byte written back for input requests, in order.
    pub replies: Vec<u8>,
}

impl Playback {
    /// An empty playback: no feed, nothing consumed or sent.
    pub fn new() -> (r: Playback)
        ensures
            r.feed@ == Seq::<u8>::empty(),
            r.pos == 0,
            r.sent@ == Seq::<Vec<u8>>::empty(),
            r.replies@ == Seq::<u8>::empty(),
    {
        Playback { feed: Vec::new(), pos: 0, sent: Vec::new(), replies: Vec::new() }
    }

    /// Append one data-carrying frame to the feed.
    pub fn feed_frame(&mut self, tag: u8, payload: &Vec<u8>)
        requires
            payload@.len() < 0x100000000,
        ensures
            final(self).feed@ == old(self).feed@ + crate::protocol::spec_frame(tag, payload@),
            final(self).pos == old(self).pos,
            final(self).sent == old(self).sent,
            final(self).replies == old(self).replies,
    {
        let frame = crate::protocol::data_frame(tag, payload);
        crate::scan::append_bytes(&mut self.feed, frame.as_slice());
    }

    /// Append one output frame to the feed.
    pub fn feed_output(&mut self, payload: &Vec<u8>)
        requires
            payload@.len() < 0x100000000,
        ensures
            final(self).feed@ == old(self).feed@ + crate::protocol::spec_frame(
                crate::protocol::tag_output(),
                payload@,
            ),
            final(self).pos == old(self).pos,
            final(self).sent == old(self).sent,
            final(self).replies == old(self).replies,
    {
        self.feed_frame(111u8, payload);
    }

    /// Append one error frame to the feed.
    pub fn feed_error(&mut self, payload: &Vec<u8>)
        requires
            payload@.len() < 0x100000000,
        ensures
            final(self).feed@ == old(self).feed@ + crate::protocol::spec_frame(
                crate::protocol::tag_error(),
                payload@,
            ),
            final(self).pos == old(self).pos,
            final(self).sent == old(self).sent,
            final(self).replies == old(self).replies,
    {
        self.feed_frame(101u8, payload);
    }

    /// Append the terminal result frame to the feed.
    pub fn feed_result(&mut self, code: i32)
        ensures
            final(self).feed@ == old(self).feed@ + crate::protocol::spec_result_frame(code as int),
            final(self).pos == old(self).pos,
            final(self).sent == old(self).sent,
            final(self).replies == old(self).replies,
    {
        let frame = crate::protocol::result_frame(code);
        crate::scan::append_bytes(&mut self.feed, frame.as_slice());
    }

    /// Append one input-request frame to the feed.
    pub fn feed_input_request(&mut self, line: bool, size: u32)
        ensures
            final(self).feed@ == old(self).feed@ + crate::protocol::spec_input_frame(
                line,
                size as int,
            ),
            final(self).pos == old(self).pos,
            final(self).sent == old(self).sent,
            final(self).replies == old(self).replies,
    {
        let frame = crate::protocol::input_frame(line, size);
        crate::scan::append_bytes(&mut self.feed, frame.as_slice());
    }
}

/// The byte strings of an argument list.
pub open spec fn strs_bytes(args: Seq<Seq<char>>) -> Seq<Seq<u8>> {
    args.map(|i: int, a: Seq<char>| vstd::utf8::encode_utf8(a))
}

impl Runner for Playback {
    /// One whole request/response cycle against the feed: the request
    /// is encoded and recorded on `sent`, the response frames are
    /// interpreted by the dispatcher from `pos`, every byte written
    /// back lands on `replies`, and `pos` moves to the consumed end.
    fn runcommand<P: Prompt>(
        &mut self,
        args: &Vec<String>,
        prompt: &mut Option<P>,
    ) -> (r: Result<(Vec<u8>, i32), HglibError>)
        ensures
            final(self).feed@ == old(self).feed@,
            !crate::codec::encodable(strs_bytes(args.deep_view())) ==> (r is Err && *final(self)
                == *old(self)),
            crate::codec::encodable(strs_bytes(args.deep_view())) ==> ({
                let st = crate::protocol::spec_engine(
                    old(self).feed@,
                    old(self).pos as int,
                    Seq::empty(),
                    Seq::empty(),
                );
                &&& final(self).sent.deep_view() == old(self).sent.deep_view().push(
                    crate::codec::spec_request(strs_bytes(args.deep_view())),
                )
                &&& (st matches crate::protocol::SpecStep::Done { out, err, code, end } ==> {
                    &&& final(self).pos == end
                    &&& final(self).replies@ == old(self).replies@
                    &&& (code == 0 ==> (r matches Ok(v) && v.0@ == out && v.1 == code))
                    &&& (code != 0 ==> (r matches Err(e) && e.code == code && (e.out matches Some(
                        o,
                    ) && o@ == out)))
                })
                &&& (st matches crate::protocol::SpecStep::Fail { msg, end } ==> {
                    &&& final(self).pos == end
                    &&& final(self).replies@ == old(self).replies@
                    &&& (r matches Err(e) && e.code == -1 && e.out is None && e.msg@ == msg)
                })
                &&& (st matches crate::protocol::SpecStep::Input { next, .. } ==> ((*old(prompt))
                    is None ==> {
                    &&& final(self).pos == next
                    &&& final(self).replies@ == old(self).replies@ + crate::codec::be32_bytes(0)
                    &&& (r matches Err(e) && e.code == -1 && e.out is None && e.msg@
                        == crate::protocol::msg_missing_prompt())
                }))
                &&& ((*old(prompt)) is Some ==> (exists|bufs: Seq<Seq<u8>>|
                    {
                        let st2 = #[trigger] crate::protocol::spec_session(
                            old(self).feed@,
                            old(self).pos as int,
                            Seq::empty(),
                            Seq::empty(),
                            bufs,
                        );
                        &&& !(st2 is Input)
                        &&& final(self).replies@ == old(self).replies@
                            + crate::protocol::spec_session_written(
                            old(self).feed@,
                            old(self).pos as int,
                            bufs,
                        )
                        &&& (st2 matches crate::protocol::SpecStep::Done { out, err, code, end }
                            ==> {
                            &&& final(self).pos == end
                            &&& (code == 0 ==> (r matches Ok(v) && v.0@ == out && v.1 == code))
                            &&& (code != 0 ==> (r matches Err(e) && e.code == code && (
                            e.out matches Some(o) && o@ == out)))
                        })
                        &&& (st2 matches crate::protocol::SpecStep::Fail { msg, end } ==> {
                            &&& final(self).pos == end
                            &&& (r matches Err(e) && e.code == -1 && e.out is None && e.msg@
                                == msg)
                        })
                    }))
            }),
    {
        let ghost views = args.deep_view();
        let mut raw: Vec<Vec<u8>> = Vec::new();
        let mut i: usize = 0;
        proof {
            assert(raw.deep_view() =~= strs_bytes(views.take(0)));
        }
        while i < args.len()
            invariant
                0 <= i <= args@.len(),
                views == args.deep_view(),
                views.len() == args@.len(),
                raw.deep_view() == strs_bytes(views.take(i as int)),
            decreases args@.len() - i,
        {
            let ghost before = raw.deep_view();
            raw.push(args[i].as_str().as_bytes_vec());
            proof {
                assert(views[i as int] == args@[i as int]@);
                assert(raw.deep_view() =~~= before.push(
                    vstd::utf8::encode_utf8(views[i as int]),
                ));
                assert(raw.deep_view() =~= strs_bytes(views.take(i + 1)));
            }
            i = i + 1;
        }
        proof {
            assert(views.take(views.len() as int) =~= views);
        }
        let enc = match crate::codec::encode_request(&raw) {
            Ok(enc) => enc,
            Err(e) => {
                return Err(e);
            },
        };
        let ghost sent0 = self.sent.deep_view();
        self.sent.push(enc);
        proof {
            assert(self.sent.deep_view() =~~= sent0.push(
                crate::codec::spec_request(strs_bytes(views)),
            ));
        }
        let (outcome, end, written) = crate::protocol::run_response(&self.feed, self.pos, prompt);
        self.pos = end;
        crate::scan::append_bytes(&mut self.replies, written.as_slice());
        outcome
    }
}

} // verus!

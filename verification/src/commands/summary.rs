//! The `summary` command: summarize the working directory state.

use crate::builder::new_args;
use crate::builder::MkArg;
use crate::client::HglibError;
use crate::client::NoPrompt;
use crate::client::Runner;
use crate::scan::contains_bytes;
use crate::scan::ends_with;
use crate::scan::eq_bytes;
use crate::scan::find_byte;
use crate::scan::parse_dec_u64;
use crate::scan::tokens;
use crate::scan::utf8_to_string;
use std::collections::HashMap;
use vstd::prelude::*;
use vstd::slice::slice_subrange;
use vstd::slice::slice_to_vec;

verus! {

/// Parameters of `summary`.
pub struct Arg {
    pub remote: bool,
}

impl Default for Arg {
    fn default() -> (r: Self)
        ensures
            !r.remote,
    {
        Arg { remote: false }
    }
}

impl Arg {
    /// The argument strings of this request.
    pub open spec fn spec_args(&self) -> Seq<Seq<char>> {
        seq!["summary"@] + self.remote.contributes("--remote"@) + crate::builder::separator()
    }

    /// Render the request's argument list.
    pub fn to_args(&self) -> (r: Vec<String>)
        ensures
            r.deep_view() == self.spec_args(),
    {
        let mut args = new_args("summary");
        self.remote.mk("--remote", &mut args);
        crate::builder::push_separator(&mut args);
        args
    }

    /// Send the request and return the raw outcome.
    pub fn run<R: Runner>(&self, client: &mut R) -> Result<(Vec<u8>, i32), HglibError> {
        let args = self.to_args();
        let mut no_prompt: Option<NoPrompt> = None;
        client.runcommand(&args, &mut no_prompt)
    }
}

/// One parent line of the summary: the revision may be -1 in an empty
/// repository, and the commit message follows on its own line.
#[derive(Debug, Default, PartialEq)]
pub struct Revision {
    pub rev: i64,
    pub node: String,
    pub tags: String,
    pub message: String,
}

/// The remote line of the summary: what would be pushed or pulled.
#[derive(Debug, Default, PartialEq)]
pub struct Remote {
    pub outgoing: u64,
    pub incoming: u64,
    pub outgoing_bookmarks: u64,
    pub incoming_bookmarks: u64,
}

/// The patch-queue line of the summary.
#[derive(Debug, Default, PartialEq)]
pub struct Mq {
    pub applied: u64,
    pub unapplied: u64,
}

/// The whole summary: parents, branch, cleanliness, update count, the
/// remote state when it was asked for, the patch queue, and any lines
/// the library does not interpret.
#[derive(Debug, Default, PartialEq)]
pub struct Summary {
    pub parent: Vec<Revision>,
    pub branch: String,
    pub commit: bool,
    pub update: u32,
    pub remote: Option<Remote>,
    pub mq: Mq,
    pub others: HashMap<String, String>,
}

/// The notice appended to the tags of an empty repository's parent.
pub open spec fn empty_notice() -> Seq<u8> {
    vstd::utf8::encode_utf8(" (empty repository)"@)
}

/// The pieces of a parent value `rev:node tags...`: the revision
/// digits (after a leading minus, when present), the node, and the
/// tags with the empty-repository notice dropped.
pub open spec fn parent_parts(v: Seq<u8>) -> (Seq<u8>, Seq<u8>, Seq<u8>) {
    let neg = v.len() > 0 && v[0] == 45;
    let start: int = if neg {
        1
    } else {
        0
    };
    let colon = crate::scan::spec_find(v, 58, 0);
    let nstart = if colon < v.len() {
        colon + 1
    } else {
        colon
    };
    let sp = crate::scan::spec_find(v, 32, nstart);
    let tstart = if sp < v.len() {
        sp + 1
    } else {
        sp
    };
    let tags_raw = v.skip(tstart);
    let tags = if crate::scan::spec_ends_with(tags_raw, empty_notice()) {
        tags_raw.take(tags_raw.len() - empty_notice().len())
    } else {
        tags_raw
    };
    (v.subrange(start, colon), v.subrange(nstart, sp), tags)
}

/// Whether a parent value is well formed: non-empty, decimal revision
/// digits that fit, and UTF-8 node and tags.
pub open spec fn parent_ok(v: Seq<u8>) -> bool {
    let neg = v.len() > 0 && v[0] == 45;
    let start: int = if neg {
        1
    } else {
        0
    };
    &&& v.len() > 0
    &&& crate::scan::spec_find(v, 58, 0) >= start
    &&& crate::scan::all_digits(parent_parts(v).0)
    &&& crate::scan::dec_value(parent_parts(v).0) <= 0x7FFFFFFFFFFFFFFF
    &&& vstd::utf8::valid_utf8(parent_parts(v).1)
    &&& vstd::utf8::valid_utf8(parent_parts(v).2)
}

/// Parse one parent value: `rev:node tags...`, where the revision may
/// be negative and a trailing empty-repository notice is dropped from
/// the tags.
fn parse_parent(value: &[u8]) -> (r: Result<Revision, HglibError>)
    ensures
        r is Ok <==> parent_ok(value@),
        r matches Ok(p) ==> ({
            let neg = value@.len() > 0 && value@[0] == 45;
            &&& p.rev as int == (if neg {
                -crate::scan::dec_value(parent_parts(value@).0)
            } else {
                crate::scan::dec_value(parent_parts(value@).0)
            })
            &&& vstd::utf8::encode_utf8(p.node@) == parent_parts(value@).1
            &&& vstd::utf8::encode_utf8(p.tags@) == parent_parts(value@).2
            &&& p.message@.len() == 0
        }),
{
    if value.len() == 0 {
        return Err(HglibError::from_str("empty parent line in summary"));
    }
    let neg = value[0] == 45;
    let start: usize = if neg {
        1
    } else {
        0
    };
    let colon = find_byte(value, 58, 0);
    proof {
        crate::scan::lemma_find(value@, 58, 0);
    }
    if colon < start {
        return Err(HglibError::from_str("invalid parent line in summary"));
    }
    let rev_u = match parse_dec_u64(slice_subrange(value, start, colon)) {
        Some(v) => v,
        None => {
            return Err(HglibError::from_str("invalid parent revision in summary"));
        },
    };
    if rev_u > 0x7FFFFFFFFFFFFFFFu64 {
        return Err(HglibError::from_str("parent revision out of range"));
    }
    let rev: i64 = if neg {
        -(rev_u as i64)
    } else {
        rev_u as i64
    };
    let nstart = if colon < value.len() {
        colon + 1
    } else {
        colon
    };
    let sp = find_byte(value, 32, nstart);
    proof {
        crate::scan::lemma_find(value@, 32, nstart as int);
    }
    let node_bytes = slice_to_vec(slice_subrange(value, nstart, sp));
    proof {
        assert(node_bytes@ =~= parent_parts(value@).1);
    }
    let node = match utf8_to_string(&node_bytes) {
        Some(s) => s,
        None => {
            return Err(HglibError::from_str("invalid utf-8 in parent node"));
        },
    };
    let tstart = if sp < value.len() {
        sp + 1
    } else {
        sp
    };
    let mut tag_slice = slice_subrange(value, tstart, value.len());
    let notice = " (empty repository)".as_bytes();
    if ends_with(tag_slice, notice) {
        tag_slice = slice_subrange(tag_slice, 0, tag_slice.len() - notice.len());
    }
    let tag_bytes = slice_to_vec(tag_slice);
    proof {
        assert(tag_bytes@ =~= parent_parts(value@).2);
    }
    let tags = match utf8_to_string(&tag_bytes) {
        Some(s) => s,
        None => {
            return Err(HglibError::from_str("invalid utf-8 in parent tags"));
        },
    };
    Ok(Revision { rev, node, tags, message: String::new() })
}

/// A remote record with nothing to push or pull.
pub open spec fn synced_remote() -> Remote {
    Remote { outgoing: 0, incoming: 0, outgoing_bookmarks: 0, incoming_bookmarks: 0 }
}

/// One remote record updated by a count and its kind.
pub open spec fn remote_with(rem: Remote, n: int, typ: Seq<u8>) -> Remote {
    if typ == vstd::utf8::encode_utf8("outgoing"@) {
        Remote { outgoing: n as u64, ..rem }
    } else if typ == vstd::utf8::encode_utf8("outgoing bookmarks"@) {
        Remote { outgoing_bookmarks: n as u64, ..rem }
    } else if typ == vstd::utf8::encode_utf8("incoming bookmarks"@) {
        Remote { incoming_bookmarks: n as u64, ..rem }
    } else if crate::scan::spec_ends_with(typ, vstd::utf8::encode_utf8("incoming"@)) {
        Remote { incoming: n as u64, ..rem }
    } else {
        rem
    }
}

/// The remote record a comma-separated run of `count kind` segments
/// builds up from `pos` on, or nothing when a count is malformed.
pub open spec fn spec_remote(v: Seq<u8>, pos: int, rem: Remote) -> Option<Remote>
    decreases v.len() - pos,
    via spec_remote_decreases
{
    if pos < 0 || pos >= v.len() {
        Some(rem)
    } else {
        let sp = crate::scan::spec_find(v, 32, pos);
        let digits = v.subrange(pos, sp);
        if !crate::scan::all_digits(digits) || crate::scan::dec_value(digits) > u64::MAX {
            None
        } else {
            let tstart = if sp < v.len() {
                sp + 1
            } else {
                sp
            };
            let comma = crate::scan::spec_find(v, 44, tstart);
            let typ = v.subrange(tstart, comma);
            let updated = remote_with(rem, crate::scan::dec_value(digits), typ);
            if comma >= v.len() || v.len() - comma < 2 {
                Some(updated)
            } else {
                spec_remote(v, comma + 2, updated)
            }
        }
    }
}

#[via_fn]
proof fn spec_remote_decreases(v: Seq<u8>, pos: int, rem: Remote) {
    if 0 <= pos < v.len() {
        crate::scan::lemma_find(v, 32, pos);
        let sp = crate::scan::spec_find(v, 32, pos);
        let tstart = if sp < v.len() {
            sp + 1
        } else {
            sp
        };
        crate::scan::lemma_find(v, 44, tstart);
    }
}

/// What a whole remote value means: the synced notice gives the empty
/// record, anything else is read segment by segment.
pub open spec fn spec_remote_value(v: Seq<u8>) -> Option<Remote> {
    if v == vstd::utf8::encode_utf8("(synced)"@) {
        Some(synced_remote())
    } else {
        spec_remote(v, 0, synced_remote())
    }
}

/// Parse one remote value: counts followed by their kind, separated by
/// commas, or the synced notice.
fn parse_remote(value: &[u8]) -> (r: Result<Remote, HglibError>)
    ensures
        r is Ok <==> spec_remote_value(value@) is Some,
        r matches Ok(rem) ==> spec_remote_value(value@) == Some(rem),
{
    let mut rem = Remote { outgoing: 0, incoming: 0, outgoing_bookmarks: 0, incoming_bookmarks: 0 };
    if eq_bytes(value, "(synced)".as_bytes()) {
        return Ok(rem);
    }
    let ghost v = value@;
    let mut pos: usize = 0;
    let mut finished = false;
    while pos < value.len() && !finished
        invariant
            0 <= pos <= v.len(),
            v == value@,
            v != vstd::utf8::encode_utf8("(synced)"@),
            finished ==> spec_remote_value(v) == Some(rem),
            !finished ==> spec_remote_value(v) == spec_remote(v, pos as int, rem),
        decreases v.len() - pos + if finished {
            0int
        } else {
            1int
        },
    {
        let sp = find_byte(value, 32, pos);
        proof {
            crate::scan::lemma_find(v, 32, pos as int);
        }
        let n = match parse_dec_u64(slice_subrange(value, pos, sp)) {
            Some(x) => x,
            None => {
                return Err(HglibError::from_str("invalid count in remote summary"));
            },
        };
        let tstart = if sp < value.len() {
            sp + 1
        } else {
            sp
        };
        let comma = find_byte(value, 44, tstart);
        proof {
            crate::scan::lemma_find(v, 44, tstart as int);
        }
        let typ = slice_subrange(value, tstart, comma);
        proof {
            assert(typ@ =~= v.subrange(tstart as int, comma as int));
        }
        if eq_bytes(typ, "outgoing".as_bytes()) {
            rem.outgoing = n;
        } else if eq_bytes(typ, "outgoing bookmarks".as_bytes()) {
            rem.outgoing_bookmarks = n;
        } else if eq_bytes(typ, "incoming bookmarks".as_bytes()) {
            rem.incoming_bookmarks = n;
        } else if ends_with(typ, "incoming".as_bytes()) {
            rem.incoming = n;
        }
        if comma >= value.len() || value.len() - comma < 2 {
            finished = true;
        } else {
            pos = comma + 2;
        }
    }
    Ok(rem)
}

/// Parse the summary listing.  Each line reads `name: value`; a parent
/// line is followed by its commit message on an indented line, unless
/// the repository is empty.
pub fn parse(data: &Vec<u8>, want_remote: bool) -> (r: Result<Summary, HglibError>) {
    let lines = tokens(data.as_slice(), 10);
    let mut summary = Summary {
        parent: Vec::new(),
        branch: String::new(),
        commit: false,
        update: 0,
        remote: None,
        mq: Mq { applied: 0, unapplied: 0 },
        others: HashMap::new(),
    };
    let mut wait_message = false;
    let mut i: usize = 0;
    while i < lines.len()
        decreases lines@.len() - i,
    {
        let line = &lines[i];
        if wait_message {
            let mstart: usize = if line.len() >= 1 {
                1
            } else {
                0
            };
            let msg_bytes = slice_to_vec(slice_subrange(line.as_slice(), mstart, line.len()));
            let message = match utf8_to_string(&msg_bytes) {
                Some(s) => s,
                None => {
                    return Err(HglibError::from_str("invalid utf-8 in summary message"));
                },
            };
            match summary.parent.pop() {
                Some(p) => {
                    summary.parent.push(
                        Revision { rev: p.rev, node: p.node, tags: p.tags, message },
                    );
                },
                None => {
                    return Err(HglibError::from_str("summary message with no parent line"));
                },
            }
            wait_message = false;
            i = i + 1;
            continue;
        }
        let c = find_byte(line.as_slice(), 58, 0);
        proof {
            crate::scan::lemma_find(line@, 58, 0);
        }
        if c == line.len() || line.len() - c < 2 {
            return Err(HglibError::from_str("invalid line in summary"));
        }
        let name = slice_subrange(line.as_slice(), 0, c);
        let value = slice_subrange(line.as_slice(), c + 2, line.len());
        if eq_bytes(name, "parent".as_bytes()) {
            let parent = parse_parent(value)?;
            let fresh = parent.rev != -1;
            summary.parent.push(parent);
            wait_message = fresh;
        } else if eq_bytes(name, "branch".as_bytes()) {
            let branch_bytes = slice_to_vec(value);
            summary.branch = match utf8_to_string(&branch_bytes) {
                Some(s) => s,
                None => {
                    return Err(HglibError::from_str("invalid utf-8 in summary branch"));
                },
            };
        } else if eq_bytes(name, "commit".as_bytes()) {
            summary.commit = contains_bytes(line.as_slice(), "(clean)".as_bytes());
        } else if eq_bytes(name, "update".as_bytes()) {
            if eq_bytes(value, "(current)".as_bytes()) {
                summary.update = 0;
            } else {
                let sp = find_byte(value, 32, 0);
                proof {
                    crate::scan::lemma_find(value@, 32, 0);
                }
                let n = match parse_dec_u64(slice_subrange(value, 0, sp)) {
                    Some(v) => v,
                    None => {
                        return Err(HglibError::from_str("invalid update count in summary"));
                    },
                };
                if n > 0xFFFFFFFFu64 {
                    return Err(HglibError::from_str("update count out of range"));
                }
                summary.update = n as u32;
            }
        } else if eq_bytes(name, "remote".as_bytes()) {
            if want_remote {
                let rem = parse_remote(value)?;
                summary.remote = Some(rem);
            }
        } else if eq_bytes(name, "mq".as_bytes()) {
            // the patch-queue line is not interpreted; the counts keep
            // their defaults
        } else {
            let name_bytes = slice_to_vec(name);
            let value_bytes = slice_to_vec(value);
            let key = match utf8_to_string(&name_bytes) {
                Some(s) => s,
                None => {
                    return Err(HglibError::from_str("invalid utf-8 in summary line"));
                },
            };
            let val = match utf8_to_string(&value_bytes) {
                Some(s) => s,
                None => {
                    return Err(HglibError::from_str("invalid utf-8 in summary line"));
                },
            };
            summary.others.insert(key, val);
        }
        i = i + 1;
    }
    Ok(summary)
}

/// Run `summary`.
pub fn summary<R: Runner>(client: &mut R, x: Arg) -> (r: Result<Summary, HglibError>) {
    let want_remote = x.remote;
    let (data, _) = x.run(client)?;
    parse(&data, want_remote)
}

} // verus!

//! The `tags` command: list the repository's tags with revision, node
//! and whether the tag is local.

use crate::builder::new_args;
use crate::builder::MkArg;
use crate::client::HglibError;
use crate::client::NoPrompt;
use crate::client::Runner;
use crate::scan::all_digits;
use crate::scan::dec_value;
use crate::scan::ends_with;
use crate::scan::spec_ends_with;
use crate::scan::spec_find;
use crate::scan::spec_rfind;
use crate::scan::spec_trim_end;
use crate::scan::split_by;
use crate::scan::split_bytes;
use crate::scan::trim_end;
use crate::scan::utf8_to_string;
use vstd::prelude::*;
use vstd::slice::slice_subrange;
use vstd::slice::slice_to_vec;
use vstd::utf8::encode_utf8;
use vstd::utf8::valid_utf8;

verus! {

/// Parameters of `tags`: there are none; the verbose listing is always
/// asked for, so that local tags are marked.
pub struct Arg {}

impl Default for Arg {
    fn default() -> (r: Self) {
        Arg {  }
    }
}

impl Arg {
    /// The argument strings of this request.
    pub open spec fn spec_args(&self) -> Seq<Seq<char>> {
        seq!["tags"@] + true.contributes("-v"@) + crate::builder::separator()
    }

    /// Render the request's argument list.
    pub fn to_args(&self) -> (r: Vec<String>)
        ensures
            r.deep_view() == self.spec_args(),
    {
        let mut args = new_args("tags");
        true.mk("-v", &mut args);
        crate::builder::push_separator(&mut args);
        args
    }

    /// Send the request and return the raw outcome.
    pub fn run<R: Runner>(&self, client: &mut R) -> Result<(Vec<u8>, i32), HglibError> {
        let args = self.to_args();
        let mut no_prompt: Option<NoPrompt> = None;
        client.runcommand(&args, &mut no_prompt)
    }
}

/// One tag: its name, the revision and node it points at, and whether
/// it is local to this repository.
#[derive(Debug, PartialEq)]
pub struct Tag {
    pub name: String,
    pub rev: u64,
    pub node: String,
    pub islocal: bool,
}

/// The marker of a local tag at the end of a verbose listing line.
pub open spec fn local_marker() -> Seq<u8> {
    encode_utf8(" local"@)
}

/// A listing line without its local marker.
pub open spec fn line_body(line: Seq<u8>) -> Seq<u8> {
    if spec_ends_with(line, local_marker()) {
        line.take(line.len() - local_marker().len())
    } else {
        line
    }
}

/// The name, revision digits and node bytes of one listing line: the
/// name before the last space, trimmed, and the revision and node
/// after it, split at the colon.
pub open spec fn line_parts(line: Seq<u8>) -> (Seq<u8>, Seq<u8>, Seq<u8>) {
    let l = line_body(line);
    let sp = spec_rfind(l, 32);
    let name = spec_trim_end(l.take(sp), true);
    let rn = l.skip(sp + 1);
    let c = spec_find(rn, 58, 0);
    let nstart = if c < rn.len() {
        c + 1
    } else {
        c
    };
    (name, rn.take(c), rn.skip(nstart))
}

/// Whether one listing line is well formed: a space between name and
/// revision, a decimal revision before the colon, UTF-8 elsewhere.
pub open spec fn line_ok(line: Seq<u8>) -> bool {
    &&& spec_rfind(line_body(line), 32) >= 0
    &&& valid_utf8(line_parts(line).0)
    &&& all_digits(line_parts(line).1) && dec_value(line_parts(line).1) <= u64::MAX
    &&& valid_utf8(line_parts(line).2)
}

/// The tags carried by the listing's lines; empty lines are skipped
/// and one bad line spoils the parse.
pub open spec fn spec_tags(lines: Seq<Seq<u8>>) -> Option<Seq<(Seq<u8>, int, Seq<u8>, bool)>>
    decreases lines.len(),
{
    if lines.len() == 0 {
        Some(Seq::empty())
    } else {
        let p = lines[0];
        let rest = spec_tags(lines.drop_first());
        if p.len() == 0 {
            rest
        } else if !line_ok(p) {
            None
        } else {
            match rest {
                Some(t) => Some(
                    seq![
                        (
                            line_parts(p).0,
                            dec_value(line_parts(p).1),
                            line_parts(p).2,
                            spec_ends_with(p, local_marker()),
                        ),
                    ] + t,
                ),
                None => None,
            }
        }
    }
}

/// Parse the lines of a verbose tag listing.
pub fn parse(data: &Vec<u8>) -> (r: Result<Vec<Tag>, HglibError>)
    ensures
        r is Ok <==> spec_tags(split_by(data@, 10)) is Some,
        r matches Ok(v) ==> (spec_tags(split_by(data@, 10)) matches Some(specs) && v@.len()
            == specs.len() && (forall|k: int|
            0 <= k < v@.len() ==> encode_utf8((#[trigger] v@[k]).name@) == specs[k].0
                && v@[k].rev as int == specs[k].1 && encode_utf8(v@[k].node@) == specs[k].2
                && v@[k].islocal == specs[k].3)),
{
    let lines = split_bytes(data.as_slice(), 10);
    let ghost f = split_by(data@, 10);
    let mut res: Vec<Tag> = Vec::new();
    let ghost mut done: Seq<(Seq<u8>, int, Seq<u8>, bool)> = Seq::empty();
    let mut i: usize = 0;
    proof {
        assert(f.skip(0) =~= f);
    }
    while i < lines.len()
        invariant
            0 <= i <= lines@.len(),
            f == lines.deep_view(),
            f == split_by(data@, 10),
            f.len() == lines@.len(),
            res@.len() == done.len(),
            forall|k: int|
                0 <= k < res@.len() ==> encode_utf8((#[trigger] res@[k]).name@) == done[k].0
                    && res@[k].rev as int == done[k].1 && encode_utf8(res@[k].node@) == done[k].2
                    && res@[k].islocal == done[k].3,
            spec_tags(f) == (match spec_tags(f.skip(i as int)) {
                Some(t) => Some(done + t),
                None => None::<Seq<(Seq<u8>, int, Seq<u8>, bool)>>,
            }),
        decreases lines@.len() - i,
    {
        let ghost rem = f.skip(i as int);
        proof {
            assert(forall|j: int| 0 <= j < f.len() ==> #[trigger] f[j] =~= lines@[j]@);
            assert(rem[0] == f[i as int]);
            assert(rem.drop_first() =~= f.skip(i + 1));
        }
        let line = &lines[i];
        if line.len() > 0 {
            let marker = " local".as_bytes();
            let islocal = ends_with(line.as_slice(), marker);
            let body = if islocal {
                slice_subrange(line.as_slice(), 0, line.len() - marker.len())
            } else {
                slice_subrange(line.as_slice(), 0, line.len())
            };
            proof {
                assert(line@.take(line@.len() as int) =~= line@);
                assert(body@ =~= line_body(rem[0]));
            }
            let sp = match crate::scan::rfind_byte(body, 32) {
                Some(p) => p,
                None => {
                    proof {
                        assert(!line_ok(rem[0]));
                    }
                    return Err(HglibError::from_str("malformed tag line"));
                },
            };
            proof {
                lemma_rfind_bounds(body@, 32);
            }
            let name_slice = trim_end(slice_subrange(body, 0, sp), true);
            let name_bytes = slice_to_vec(name_slice);
            proof {
                assert(name_bytes@ =~= line_parts(rem[0]).0);
            }
            let name = match utf8_to_string(&name_bytes) {
                Some(s) => s,
                None => {
                    proof {
                        assert(!line_ok(rem[0]));
                    }
                    return Err(HglibError::from_str("invalid utf-8 in tag name"));
                },
            };
            let rn = slice_subrange(body, sp + 1, body.len());
            proof {
                assert(rn@ =~= line_body(rem[0]).skip(spec_rfind(line_body(rem[0]), 32) + 1));
            }
            let c = crate::scan::find_byte(rn, 58, 0);
            proof {
                crate::scan::lemma_find(rn@, 58, 0);
            }
            let rev = match crate::scan::parse_dec_u64(slice_subrange(rn, 0, c)) {
                Some(v) => v,
                None => {
                    proof {
                        assert(!line_ok(rem[0]));
                    }
                    return Err(HglibError::from_str("invalid tag revision"));
                },
            };
            let nstart = if c < rn.len() {
                c + 1
            } else {
                c
            };
            let node_bytes = slice_to_vec(slice_subrange(rn, nstart, rn.len()));
            proof {
                assert(node_bytes@ =~= line_parts(rem[0]).2);
            }
            let node = match utf8_to_string(&node_bytes) {
                Some(s) => s,
                None => {
                    proof {
                        assert(!line_ok(rem[0]));
                    }
                    return Err(HglibError::from_str("invalid utf-8 in tag node"));
                },
            };
            res.push(Tag { name, rev, node, islocal });
            proof {
                assert(line_ok(rem[0]));
                done = done.push(
                    (
                        line_parts(rem[0]).0,
                        dec_value(line_parts(rem[0]).1),
                        line_parts(rem[0]).2,
                        spec_ends_with(rem[0], local_marker()),
                    ),
                );
                assert(forall|t: Seq<(Seq<u8>, int, Seq<u8>, bool)>|
                    done + t =~= done.drop_last() + (seq![done.last()] + t));
            }
        }
        i = i + 1;
    }
    proof {
        assert(f.skip(f.len() as int) =~= Seq::<Seq<u8>>::empty());
        assert(spec_tags(Seq::empty()) == Some(Seq::<(Seq<u8>, int, Seq<u8>, bool)>::empty()));
        assert(done + Seq::<(Seq<u8>, int, Seq<u8>, bool)>::empty() =~= done);
    }
    Ok(res)
}

/// Where `spec_rfind` finds something, it is a position in the run.
proof fn lemma_rfind_bounds(s: Seq<u8>, b: u8)
    ensures
        spec_rfind(s, b) >= 0 ==> spec_rfind(s, b) < s.len(),
        -1 <= spec_rfind(s, b),
    decreases s.len(),
{
    if s.len() > 0 && s.last() != b {
        lemma_rfind_bounds(s.drop_last(), b);
    }
}

/// Run `tags`.
pub fn tags<R: Runner>(client: &mut R, x: Arg) -> (r: Result<Vec<Tag>, HglibError>) {
    let (data, _) = x.run(client)?;
    parse(&data)
}

} // verus!

//! The `branches` command: list the named branches with their tip
//! revision and node.

use crate::builder::new_args;
use crate::builder::MkArg;
use crate::client::HglibError;
use crate::client::NoPrompt;
use crate::client::Runner;
use crate::scan::all_digits;
use crate::scan::dec_value;
use crate::scan::drop_empty;
use crate::scan::spec_find;
use crate::scan::split_by;
use crate::scan::split_bytes;
use crate::scan::tokens;
use crate::scan::utf8_to_string;
use vstd::prelude::*;
use vstd::slice::slice_subrange;
use vstd::slice::slice_to_vec;
use vstd::utf8::encode_utf8;
use vstd::utf8::valid_utf8;

verus! {

/// Parameters of `branches`.
pub struct Arg {
    pub active: bool,
    pub closed: bool,
}

impl Default for Arg {
    fn default() -> (r: Self)
        ensures
            !r.active && !r.closed,
    {
        Arg { active: false, closed: false }
    }
}

impl Arg {
    /// The argument strings of this request.
    pub open spec fn spec_args(&self) -> Seq<Seq<char>> {
        seq!["branches"@] + self.active.contributes("-a"@) + self.closed.contributes("-c"@) + crate::builder::separator()
    }

    /// Render the request's argument list.
    pub fn to_args(&self) -> (r: Vec<String>)
        ensures
            r.deep_view() == self.spec_args(),
    {
        let mut args = new_args("branches");
        self.active.mk("-a", &mut args);
        self.closed.mk("-c", &mut args);
        crate::builder::push_separator(&mut args);
        args
    }

    /// Send the request and return the raw outcome.
    pub fn run<R: Runner>(&self, client: &mut R) -> Result<(Vec<u8>, i32), HglibError> {
        let args = self.to_args();
        let mut no_prompt: Option<NoPrompt> = None;
        client.runcommand(&args, &mut no_prompt)
    }
}

/// One named branch: its name and its tip's revision number and node
/// prefix.
#[derive(Debug, PartialEq)]
pub struct Branch {
    pub name: String,
    pub rev: u64,
    pub node: String,
}

/// The name, revision digits and node bytes of one listing line: the
/// first space-separated token, and the second split at its colon.
pub open spec fn line_parts(line: Seq<u8>) -> (Seq<u8>, Seq<u8>, Seq<u8>) {
    let toks = drop_empty(split_by(line, 32));
    let rn = toks[1];
    let c = spec_find(rn, 58, 0);
    let nstart = if c < rn.len() {
        c + 1
    } else {
        c
    };
    (toks[0], rn.take(c), rn.skip(nstart))
}

/// Whether one listing line is well formed: at least two tokens, a
/// decimal revision before the colon, and UTF-8 text elsewhere.
pub open spec fn line_ok(line: Seq<u8>) -> bool {
    let toks = drop_empty(split_by(line, 32));
    &&& toks.len() >= 2
    &&& valid_utf8(line_parts(line).0)
    &&& all_digits(line_parts(line).1) && dec_value(line_parts(line).1) <= u64::MAX
    &&& valid_utf8(line_parts(line).2)
}

/// The branches carried by the listing's lines; empty lines are
/// skipped and one bad line spoils the parse.
pub open spec fn spec_branches(lines: Seq<Seq<u8>>) -> Option<Seq<(Seq<u8>, int, Seq<u8>)>>
    decreases lines.len(),
{
    if lines.len() == 0 {
        Some(Seq::empty())
    } else {
        let p = lines[0];
        let rest = spec_branches(lines.drop_first());
        if p.len() == 0 {
            rest
        } else if !line_ok(p) {
            None
        } else {
            match rest {
                Some(t) => Some(
                    seq![
                        (line_parts(p).0, dec_value(line_parts(p).1), line_parts(p).2),
                    ] + t,
                ),
                None => None,
            }
        }
    }
}

/// Parse the lines of a branch listing.
pub fn parse(data: &Vec<u8>) -> (r: Result<Vec<Branch>, HglibError>)
    ensures
        r is Ok <==> spec_branches(split_by(data@, 10)) is Some,
        r matches Ok(v) ==> (spec_branches(split_by(data@, 10)) matches Some(specs) && v@.len()
            == specs.len() && (forall|k: int|
            0 <= k < v@.len() ==> encode_utf8((#[trigger] v@[k]).name@) == specs[k].0
                && v@[k].rev as int == specs[k].1 && encode_utf8(v@[k].node@) == specs[k].2)),
{
    let lines = split_bytes(data.as_slice(), 10);
    let ghost f = split_by(data@, 10);
    let mut res: Vec<Branch> = Vec::new();
    let ghost mut done: Seq<(Seq<u8>, int, Seq<u8>)> = Seq::empty();
    let mut i: usize = 0;
    proof {
        assert(f.skip(0) =~= f);
    }
    while i < lines.len()
        invariant
            0 <= i <= lines@.len(),
            f == lines.deep_view(),
            f == split_by(data@, 10),
            f.len() == lines@.len(),
            res@.len() == done.len(),
            forall|k: int|
                0 <= k < res@.len() ==> encode_utf8((#[trigger] res@[k]).name@) == done[k].0
                    && res@[k].rev as int == done[k].1 && encode_utf8(res@[k].node@) == done[k].2,
            spec_branches(f) == (match spec_branches(f.skip(i as int)) {
                Some(t) => Some(done + t),
                None => None::<Seq<(Seq<u8>, int, Seq<u8>)>>,
            }),
        decreases lines@.len() - i,
    {
        let ghost rem = f.skip(i as int);
        proof {
            assert(forall|j: int| 0 <= j < f.len() ==> #[trigger] f[j] =~= lines@[j]@);
            assert(rem[0] == f[i as int]);
            assert(rem.drop_first() =~= f.skip(i + 1));
        }
        let line = &lines[i];
        if line.len() > 0 {
            let toks = tokens(line.as_slice(), 32);
            if toks.len() < 2 {
                proof {
                    assert(!line_ok(rem[0]));
                }
                return Err(HglibError::from_str("malformed branch line"));
            }
            proof {
                assert(toks.deep_view()[0] =~= toks@[0]@);
                assert(toks.deep_view()[1] =~= toks@[1]@);
            }
            let name_bytes = slice_to_vec(toks[0].as_slice());
            let name = match utf8_to_string(&name_bytes) {
                Some(s) => s,
                None => {
                    proof {
                        assert(!line_ok(rem[0]));
                    }
                    return Err(HglibError::from_str("invalid utf-8 in branch name"));
                },
            };
            let rn = &toks[1];
            let c = crate::scan::find_byte(rn.as_slice(), 58, 0);
            proof {
                crate::scan::lemma_find(rn@, 58, 0);
            }
            let digits = slice_subrange(rn.as_slice(), 0, c);
            let rev = match crate::scan::parse_dec_u64(digits) {
                Some(v) => v,
                None => {
                    proof {
                        assert(!line_ok(rem[0]));
                    }
                    return Err(HglibError::from_str("invalid branch revision"));
                },
            };
            let nstart = if c < rn.len() {
                c + 1
            } else {
                c
            };
            let node_bytes = slice_to_vec(slice_subrange(rn.as_slice(), nstart, rn.len()));
            proof {
                assert(node_bytes@ =~= line_parts(rem[0]).2);
            }
            let node = match utf8_to_string(&node_bytes) {
                Some(s) => s,
                None => {
                    proof {
                        assert(!line_ok(rem[0]));
                    }
                    return Err(HglibError::from_str("invalid utf-8 in branch node"));
                },
            };
            res.push(Branch { name, rev, node });
            proof {
                assert(line_ok(rem[0]));
                done = done.push(
                    (line_parts(rem[0]).0, dec_value(line_parts(rem[0]).1), line_parts(rem[0]).2),
                );
                assert(forall|t: Seq<(Seq<u8>, int, Seq<u8>)>|
                    done + t =~= done.drop_last() + (seq![
                        (
                            line_parts(rem[0]).0,
                            dec_value(line_parts(rem[0]).1),
                            line_parts(rem[0]).2,
                        ),
                    ] + t));
            }
        }
        i = i + 1;
    }
    proof {
        assert(f.skip(f.len() as int) =~= Seq::<Seq<u8>>::empty());
        assert(spec_branches(Seq::empty()) == Some(Seq::<(Seq<u8>, int, Seq<u8>)>::empty()));
        assert(done + Seq::<(Seq<u8>, int, Seq<u8>)>::empty() =~= done);
    }
    Ok(res)
}

/// Run `branches`.
pub fn branches<R: Runner>(client: &mut R, x: Arg) -> (r: Result<Vec<Branch>, HglibError>) {
    let (data, _) = x.run(client)?;
    parse(&data)
}

} // verus!

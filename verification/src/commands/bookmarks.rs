//! The `bookmarks` command: list the bookmarks, marking the current
//! one.

use crate::builder::new_args;
use crate::client::HglibError;
use crate::client::NoPrompt;
use crate::client::Runner;
use crate::scan::contains_bytes;
use crate::scan::spec_starts_with;
use crate::scan::starts_with;
use crate::scan::utf8_to_string;
use vstd::prelude::*;
use vstd::slice::slice_subrange;
use vstd::slice::slice_to_vec;
use vstd::utf8::encode_utf8;

verus! {

/// Parameters of `bookmarks`: there are none.
pub struct Arg {}

impl Default for Arg {
    fn default() -> (r: Self) {
        Arg {  }
    }
}

impl Arg {
    /// The argument strings of this request.
    pub open spec fn spec_args(&self) -> Seq<Seq<char>> {
        seq!["bookmarks"@] + crate::builder::separator()
    }

    /// Render the request's argument list.
    pub fn to_args(&self) -> (r: Vec<String>)
        ensures
            r.deep_view() == self.spec_args(),
    {
        let mut args = new_args("bookmarks");
        crate::builder::push_separator(&mut args);
        args
    }

    /// Send the request and return the raw outcome.
    pub fn run<R: Runner>(&self, client: &mut R) -> Result<(Vec<u8>, i32), HglibError> {
        let args = self.to_args();
        let mut no_prompt: Option<NoPrompt> = None;
        client.runcommand(&args, &mut no_prompt)
    }
}

/// One bookmark: its name and the revision and node it points at.
#[derive(Debug, PartialEq)]
pub struct Bookmark {
    pub name: String,
    pub rev: u64,
    pub node: String,
}

/// The bookmark listing: the bookmarks in order, and the index of the
/// current one where a line was starred.
#[derive(Debug, PartialEq)]
pub struct Bookmarks {
    pub bookmarks: Vec<Bookmark>,
    pub current: Option<usize>,
}

/// The notice printed when there are no bookmarks at all.
pub open spec fn no_bookmarks_notice() -> Seq<u8> {
    encode_utf8("no bookmarks set"@)
}

/// Whether the output is the no-bookmarks notice followed only by
/// spaces and newlines.
pub open spec fn is_empty_listing(data: Seq<u8>) -> bool {
    spec_starts_with(data, no_bookmarks_notice()) && (forall|j: int|
        no_bookmarks_notice().len() <= j < data.len() ==> #[trigger] data[j] == 32 || data[j] == 10)
}

/// The name, revision digits and node bytes of one listing line: the
/// three status columns dropped, then the first two space-separated
/// tokens, the second split at its colon.
pub open spec fn line_parts(line: Seq<u8>) -> (Seq<u8>, Seq<u8>, Seq<u8>) {
    let toks = crate::scan::drop_empty(crate::scan::split_by(line.skip(3), 32));
    let rn = toks[1];
    let c = crate::scan::spec_find(rn, 58, 0);
    let nstart = if c < rn.len() {
        c + 1
    } else {
        c
    };
    (toks[0], rn.take(c), rn.skip(nstart))
}

/// Whether one listing line is well formed.
pub open spec fn line_ok(line: Seq<u8>) -> bool {
    let toks = crate::scan::drop_empty(crate::scan::split_by(line.skip(3), 32));
    &&& toks.len() >= 2
    &&& vstd::utf8::valid_utf8(line_parts(line).0)
    &&& crate::scan::all_digits(line_parts(line).1)
    &&& crate::scan::dec_value(line_parts(line).1) <= u64::MAX
    &&& vstd::utf8::valid_utf8(line_parts(line).2)
}

/// Whether a line's status columns star it as the current bookmark.
pub open spec fn starred(line: Seq<u8>) -> bool {
    crate::scan::spec_contains(line.take(3), seq![42u8])
}

/// The bookmarks carried by the listing's lines from entry index
/// `idx` on, and the index of the current one: lines shorter than the
/// status columns are skipped, and the last starred line wins.
pub open spec fn spec_bookmarks(lines: Seq<Seq<u8>>, idx: int) -> Option<
    (Seq<(Seq<u8>, int, Seq<u8>)>, Option<int>),
>
    decreases lines.len(),
{
    if lines.len() == 0 {
        Some((Seq::empty(), None))
    } else if lines[0].len() < 3 {
        spec_bookmarks(lines.drop_first(), idx)
    } else if !line_ok(lines[0]) {
        None
    } else {
        match spec_bookmarks(lines.drop_first(), idx + 1) {
            Some((tail, cur)) => Some(
                (
                    seq![(line_parts(lines[0]).0, crate::scan::dec_value(line_parts(lines[0]).1), line_parts(lines[0]).2)]
                        + tail,
                    match cur {
                        Some(c) => Some(c),
                        None => if starred(lines[0]) {
                            Some(idx)
                        } else {
                            None
                        },
                    },
                ),
            ),
            None => None,
        }
    }
}

/// Parse a bookmark listing.  Each line carries a three-byte status
/// column (a `*` marks the current bookmark), the name, and the
/// revision and node separated by a colon.
pub fn parse(data: &Vec<u8>) -> (r: Result<Bookmarks, HglibError>)
    ensures
        is_empty_listing(data@) ==> (r matches Ok(b) && b.bookmarks@.len() == 0 && b.current
            is None),
        !is_empty_listing(data@) ==> ({
            let lines = crate::scan::split_by(data@, 10);
            &&& (r is Ok <==> spec_bookmarks(lines, 0) is Some)
            &&& (r matches Ok(b) ==> (spec_bookmarks(lines, 0) matches Some(sp) && b.bookmarks@.len()
                == sp.0.len() && (forall|k: int|
                0 <= k < b.bookmarks@.len() ==> vstd::utf8::encode_utf8(
                    (#[trigger] b.bookmarks@[k]).name@,
                ) == sp.0[k].0 && b.bookmarks@[k].rev as int == sp.0[k].1 && vstd::utf8::encode_utf8(
                    b.bookmarks@[k].node@,
                ) == sp.0[k].2) && (b.current matches Some(c) ==> sp.1 == Some(c as int)) && (
            b.current is None ==> sp.1 is None)))
        }),
{
    let notice = "no bookmarks set".as_bytes();
    if starts_with(data.as_slice(), notice) {
        let mut all_blank = true;
        let mut j = notice.len();
        while j < data.len()
            invariant
                notice@.len() <= j <= data@.len(),
                notice@ == no_bookmarks_notice(),
                spec_starts_with(data@, no_bookmarks_notice()),
                all_blank == (forall|h: int|
                    notice@.len() <= h < j ==> #[trigger] data@[h] == 32 || data@[h] == 10),
            decreases data@.len() - j,
        {
            if !(data[j] == 32 || data[j] == 10) {
                all_blank = false;
            }
            j = j + 1;
        }
        if all_blank {
            proof {
                assert(is_empty_listing(data@));
            }
            return Ok(Bookmarks { bookmarks: Vec::new(), current: None });
        }
        proof {
            assert(!is_empty_listing(data@));
        }
    } else {
        proof {
            assert(!is_empty_listing(data@));
        }
    }
    let lines = crate::scan::split_bytes(data.as_slice(), 10);
    let ghost f = crate::scan::split_by(data@, 10);
    proof {
        assert(lines.deep_view() == f);
        assert(forall|j: int| 0 <= j < f.len() ==> #[trigger] f[j] =~= lines@[j]@);
        assert(f.skip(0) =~= f);
    }
    let mut bookmarks: Vec<Bookmark> = Vec::new();
    let mut current: Option<usize> = None;
    let ghost mut done: Seq<(Seq<u8>, int, Seq<u8>)> = Seq::empty();
    let ghost mut cur_seen: Option<int> = None;
    let mut i: usize = 0;
    while i < lines.len()
        invariant
            0 <= i <= lines@.len(),
            !is_empty_listing(data@),
            f == crate::scan::split_by(data@, 10),
            f == lines.deep_view(),
            f.len() == lines@.len(),
            forall|j: int| 0 <= j < f.len() ==> #[trigger] f[j] =~= lines@[j]@,
            bookmarks@.len() == done.len(),
            forall|k: int|
                0 <= k < bookmarks@.len() ==> vstd::utf8::encode_utf8(
                    (#[trigger] bookmarks@[k]).name@,
                ) == done[k].0 && bookmarks@[k].rev as int == done[k].1 && vstd::utf8::encode_utf8(
                    bookmarks@[k].node@,
                ) == done[k].2,
            current matches Some(c) ==> cur_seen == Some(c as int),
            current is None ==> cur_seen is None,
            cur_seen matches Some(c) ==> 0 <= c < done.len(),
            spec_bookmarks(f, 0) == (match spec_bookmarks(f.skip(i as int), done.len() as int) {
                Some(p) => Some(
                    (
                        done + p.0,
                        match p.1 {
                            Some(c) => Some(c),
                            None => cur_seen,
                        },
                    ),
                ),
                None => None::<(Seq<(Seq<u8>, int, Seq<u8>)>, Option<int>)>,
            }),
        decreases lines@.len() - i,
    {
        let ghost rem = f.skip(i as int);
        proof {
            assert(rem[0] == f[i as int]);
            assert(rem.drop_first() =~= f.skip(i + 1));
        }
        let line = &lines[i];
        if line.len() >= 3 {
            let head = slice_subrange(line.as_slice(), 0, 3);
            let star: [u8; 1] = [42u8];
            proof {
                assert(star@ =~= seq![42u8]);
                assert(head@ =~= rem[0].take(3));
            }
            let this_starred = contains_bytes(head, star.as_slice());
            let body = slice_subrange(line.as_slice(), 3, line.len());
            proof {
                assert(body@ =~= rem[0].skip(3));
            }
            let toks = crate::scan::tokens(body, 32);
            if toks.len() < 2 {
                proof {
                    assert(!line_ok(rem[0]));
                }
                return Err(HglibError::from_str("malformed bookmark line"));
            }
            proof {
                assert(toks.deep_view()[0] =~= toks@[0]@);
                assert(toks.deep_view()[1] =~= toks@[1]@);
            }
            let name_bytes = slice_to_vec(toks[0].as_slice());
            let name = match utf8_to_string(&name_bytes) {
                Some(s) => s,
                None => {
                    proof {
                        assert(!line_ok(rem[0]));
                    }
                    return Err(HglibError::from_str("invalid utf-8 in bookmark name"));
                },
            };
            let rn = &toks[1];
            let c = crate::scan::find_byte(rn.as_slice(), 58, 0);
            proof {
                crate::scan::lemma_find(rn@, 58, 0);
            }
            let rev = match crate::scan::parse_dec_u64(slice_subrange(rn.as_slice(), 0, c)) {
                Some(v) => v,
                None => {
                    proof {
                        assert(!line_ok(rem[0]));
                    }
                    return Err(HglibError::from_str("invalid bookmark revision"));
                },
            };
            let nstart = if c < rn.len() {
                c + 1
            } else {
                c
            };
            let node_bytes = slice_to_vec(slice_subrange(rn.as_slice(), nstart, rn.len()));
            proof {
                assert(node_bytes@ =~= line_parts(rem[0]).2);
            }
            let node = match utf8_to_string(&node_bytes) {
                Some(s) => s,
                None => {
                    proof {
                        assert(!line_ok(rem[0]));
                    }
                    return Err(HglibError::from_str("invalid utf-8 in bookmark node"));
                },
            };
            if this_starred {
                current = Some(bookmarks.len());
                proof {
                    cur_seen = Some(done.len() as int);
                    assert(starred(rem[0]));
                }
            } else {
                proof {
                    assert(!starred(rem[0]));
                }
            }
            let entry = Bookmark { name, rev, node };
            proof {
                assert(line_ok(rem[0]));
                done = done.push(
                    (
                        line_parts(rem[0]).0,
                        crate::scan::dec_value(line_parts(rem[0]).1),
                        line_parts(rem[0]).2,
                    ),
                );
                assert(forall|tail: Seq<(Seq<u8>, int, Seq<u8>)>|
                    done + tail =~= done.drop_last() + (seq![done.last()] + tail));
            }
            bookmarks.push(entry);
        }
        i = i + 1;
    }
    proof {
        assert(f.skip(f.len() as int) =~= Seq::<Seq<u8>>::empty());
        assert(spec_bookmarks(Seq::empty(), done.len() as int) == Some(
            (Seq::<(Seq<u8>, int, Seq<u8>)>::empty(), None::<int>),
        ));
        assert(done + Seq::<(Seq<u8>, int, Seq<u8>)>::empty() =~= done);
    }
    Ok(Bookmarks { bookmarks, current })
}

/// Run `bookmarks`.
pub fn bookmarks<R: Runner>(client: &mut R, x: Arg) -> (r: Result<Bookmarks, HglibError>) {
    let (data, _) = x.run(client)?;
    parse(&data)
}

} // verus!

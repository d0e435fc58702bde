//! Shared pieces of the command layer: the changeset record that
//! log-like commands return, the template that renders it, and helpers
//! over raw command output.

use crate::client::HglibError;
use crate::scan::all_digits;
use crate::scan::dec_value;
use crate::scan::find_byte;
use crate::scan::parse_dec_u64;
use crate::scan::spec_find;
use crate::scan::split_by;
use crate::scan::split_bytes;
use crate::scan::utf8_to_string;
use vstd::prelude::*;
use vstd::slice::slice_subrange;
use vstd::utf8::encode_utf8;
use vstd::utf8::valid_utf8;

verus! {

/// The template that log-like commands hand to the server: seven
/// NUL-separated fields per changeset.
pub const CHANGESETS_TEMPLATE: &'static str =
    "{rev}\\0{node}\\0{tags}\\0{branch}\\0{author}\\0{desc}\\0{date}\\0";

/// The contribution of the template option to an argument list.
pub open spec fn template_contrib() -> Seq<Seq<char>> {
    seq!["--template"@, CHANGESETS_TEMPLATE@]
}

/// Append the template option and the changeset template itself.
pub fn push_template(args: &mut Vec<String>)
    ensures
        final(args).deep_view() == old(args).deep_view() + template_contrib(),
{
    proof {
        reveal_strlit("{rev}\\0{node}\\0{tags}\\0{branch}\\0{author}\\0{desc}\\0{date}\\0");
    }
    crate::builder::MkArg::mk(&CHANGESETS_TEMPLATE, "--template", args);
}

/// One changeset as the template renders it.  The date is kept as the
/// Unix timestamp the server prints, in seconds.
#[derive(Debug, PartialEq)]
pub struct Revision {
    pub rev: u64,
    pub node: String,
    pub tags: String,
    pub branch: String,
    pub author: String,
    pub desc: String,
    pub date: i64,
}

/// The suffix of a run of bytes after its `n`-th newline, for `n` at
/// least 1; empty when there are not that many newlines.
pub open spec fn after_lines(s: Seq<u8>, n: int) -> Seq<u8>
    decreases n,
{
    let i = spec_find(s, 10, 0);
    if i == s.len() {
        Seq::empty()
    } else if n <= 1 {
        s.skip(i + 1)
    } else {
        after_lines(s.skip(i + 1), n - 1)
    }
}

/// Drop the first `n` lines of a buffer; what follows the `n`-th
/// newline, or nothing when there are fewer newlines than that.
pub fn eatlines(buf: &[u8], n: u32) -> (r: &[u8])
    ensures
        n == 0 ==> r@ == Seq::<u8>::empty(),
        n >= 1 ==> r@ == after_lines(buf@, n as int),
{
    if n == 0 {
        return slice_subrange(buf, 0, 0);
    }
    let mut rest = buf;
    let mut left = n;
    while left >= 1
        invariant
            1 <= left <= n,
            after_lines(buf@, n as int) == after_lines(rest@, left as int),
        decreases left,
    {
        let i = find_byte(rest, 10, 0);
        proof {
            crate::scan::lemma_find(rest@, 10, 0);
        }
        if i == rest.len() {
            return slice_subrange(rest, 0, 0);
        }
        let next = slice_subrange(rest, i + 1, rest.len());
        proof {
            assert(next@ =~= rest@.skip(i + 1));
        }
        if left == 1 {
            return next;
        }
        rest = next;
        left = left - 1;
    }
    slice_subrange(rest, 0, 0)
}

/// The boolean convenience mapping over a raw outcome; see
/// [`HglibError::handle_err`].
pub fn handle_err(x: Result<(Vec<u8>, i32), HglibError>) -> (r: Result<bool, HglibError>)
    ensures
        x matches Ok(v) ==> r == Ok::<bool, HglibError>(v.1 == 0),
        x matches Err(e) ==> (if e.code == 0 {
            r == Ok::<bool, HglibError>(true)
        } else if e.code == 1 {
            r == Ok::<bool, HglibError>(false)
        } else {
            r == Err::<bool, HglibError>(e)
        }),
{
    HglibError::handle_err(x)
}

/// The NUL-separated fields of a template-rendered buffer.
pub open spec fn rev_fields(data: Seq<u8>) -> Seq<Seq<u8>> {
    split_by(data, 0)
}

/// The timestamp digits of a date field: everything before the first
/// dot.
pub open spec fn date_digits(field: Seq<u8>) -> Seq<u8> {
    field.take(spec_find(field, 46, 0))
}

/// Whether the `k`-th group of seven fields parses as a changeset:
/// a decimal revision, five UTF-8 text fields, and a timestamp.
pub open spec fn rev_group_ok(f: Seq<Seq<u8>>, k: int) -> bool {
    &&& all_digits(f[7 * k]) && dec_value(f[7 * k]) <= u64::MAX
    &&& valid_utf8(f[7 * k + 1])
    &&& valid_utf8(f[7 * k + 2])
    &&& valid_utf8(f[7 * k + 3])
    &&& valid_utf8(f[7 * k + 4])
    &&& valid_utf8(f[7 * k + 5])
    &&& all_digits(date_digits(f[7 * k + 6])) && dec_value(date_digits(f[7 * k + 6])) <= i64::MAX
}

/// Whether a changeset record carries exactly the `k`-th group of
/// seven fields.
pub open spec fn rev_matches(x: Revision, f: Seq<Seq<u8>>, k: int) -> bool {
    &&& x.rev as int == dec_value(f[7 * k])
    &&& encode_utf8(x.node@) == f[7 * k + 1]
    &&& encode_utf8(x.tags@) == f[7 * k + 2]
    &&& encode_utf8(x.branch@) == f[7 * k + 3]
    &&& encode_utf8(x.author@) == f[7 * k + 4]
    &&& encode_utf8(x.desc@) == f[7 * k + 5]
    &&& x.date as int == dec_value(date_digits(f[7 * k + 6]))
}

/// Parse a template-rendered buffer into its changesets: the fields
/// come in groups of seven, and a trailing partial group (the run
/// after the final NUL) is ignored.
pub fn parserevs(data: Vec<u8>) -> (r: Result<Vec<Revision>, HglibError>)
    ensures
        ({
            let f = rev_fields(data@);
            &&& (r is Ok <==> (forall|k: int| 0 <= k < f.len() / 7 ==> rev_group_ok(f, k)))
            &&& (r matches Ok(v) ==> v@.len() == rev_fields(data@).len() / 7 && (forall|k: int|
                0 <= k < v@.len() ==> rev_matches(#[trigger] v@[k], rev_fields(data@), k)))
        }),
{
    let fields = split_bytes(data.as_slice(), 0);
    let ghost f = rev_fields(data@);
    proof {
        assert(fields.deep_view() == f);
    }
    let n = fields.len() / 7;
    let mut res: Vec<Revision> = Vec::new();
    let mut k: usize = 0;
    while k < n
        invariant
            0 <= k <= n,
            n == fields@.len() / 7,
            f == fields.deep_view(),
            f == rev_fields(data@),
            f.len() == fields@.len(),
            res@.len() == k,
            forall|j: int| 0 <= j < k ==> rev_group_ok(f, j),
            forall|j: int| 0 <= j < k ==> rev_matches(#[trigger] res@[j], f, j),
        decreases n - k,
    {
        let flen = fields.len();
        proof {
            assert(7 * (k as int) + 6 < flen) by (nonlinear_arith)
                requires
                    0 <= k < n,
                    n == flen / 7,
            ;
            assert(forall|j: int|
                0 <= j < f.len() ==> #[trigger] f[j] =~= fields@[j]@);
        }
        let base = 7 * k;
        let rev = match parse_dec_u64(fields[base].as_slice()) {
            Some(v) => v,
            None => {
                proof {
                    assert(!rev_group_ok(f, k as int));
                    assert((k as int) < f.len() / 7);
                    assert(!(forall|j: int| 0 <= j < f.len() / 7 ==> rev_group_ok(f, j)));
                }
                return Err(HglibError::from_str("invalid revision number"));
            },
        };
        let node = match utf8_to_string(&fields[base + 1]) {
            Some(s) => s,
            None => {
                proof {
                    assert(!rev_group_ok(f, k as int));
                    assert((k as int) < f.len() / 7);
                    assert(!(forall|j: int| 0 <= j < f.len() / 7 ==> rev_group_ok(f, j)));
                }
                return Err(HglibError::from_str("invalid utf-8 in changeset"));
            },
        };
        let tags = match utf8_to_string(&fields[base + 2]) {
            Some(s) => s,
            None => {
                proof {
                    assert(!rev_group_ok(f, k as int));
                    assert((k as int) < f.len() / 7);
                    assert(!(forall|j: int| 0 <= j < f.len() / 7 ==> rev_group_ok(f, j)));
                }
                return Err(HglibError::from_str("invalid utf-8 in changeset"));
            },
        };
        let branch = match utf8_to_string(&fields[base + 3]) {
            Some(s) => s,
            None => {
                proof {
                    assert(!rev_group_ok(f, k as int));
                    assert((k as int) < f.len() / 7);
                    assert(!(forall|j: int| 0 <= j < f.len() / 7 ==> rev_group_ok(f, j)));
                }
                return Err(HglibError::from_str("invalid utf-8 in changeset"));
            },
        };
        let author = match utf8_to_string(&fields[base + 4]) {
            Some(s) => s,
            None => {
                proof {
                    assert(!rev_group_ok(f, k as int));
                    assert((k as int) < f.len() / 7);
                    assert(!(forall|j: int| 0 <= j < f.len() / 7 ==> rev_group_ok(f, j)));
                }
                return Err(HglibError::from_str("invalid utf-8 in changeset"));
            },
        };
        let desc = match utf8_to_string(&fields[base + 5]) {
            Some(s) => s,
            None => {
                proof {
                    assert(!rev_group_ok(f, k as int));
                    assert((k as int) < f.len() / 7);
                    assert(!(forall|j: int| 0 <= j < f.len() / 7 ==> rev_group_ok(f, j)));
                }
                return Err(HglibError::from_str("invalid utf-8 in changeset"));
            },
        };
        let date_field = &fields[base + 6];
        let dot = find_byte(date_field.as_slice(), 46, 0);
        proof {
            crate::scan::lemma_find(date_field@, 46, 0);
        }
        let stamp = slice_subrange(date_field.as_slice(), 0, dot);
        proof {
            assert(stamp@ =~= date_digits(f[7 * (k as int) + 6]));
        }
        let date: i64 = match parse_dec_u64(stamp) {
            Some(v) => {
                if v > i64::MAX as u64 {
                    proof {
                        assert(!rev_group_ok(f, k as int));
                        assert((k as int) < f.len() / 7);
                        assert(!(forall|j: int| 0 <= j < f.len() / 7 ==> rev_group_ok(f, j)));
                    }
                    return Err(HglibError::from_str("timestamp out of range"));
                }
                v as i64
            },
            None => {
                proof {
                    assert(!rev_group_ok(f, k as int));
                    assert((k as int) < f.len() / 7);
                    assert(!(forall|j: int| 0 <= j < f.len() / 7 ==> rev_group_ok(f, j)));
                }
                return Err(HglibError::from_str("invalid timestamp"));
            },
        };
        let rec = Revision { rev, node, tags, branch, author, desc, date };
        proof {
            assert(rev_group_ok(f, k as int));
            assert(rev_matches(rec, f, k as int));
        }
        res.push(rec);
        k = k + 1;
    }
    proof {
        assert(forall|j: int| 0 <= j < f.len() / 7 ==> rev_group_ok(f, j));
    }
    Ok(res)
}

} // verus!

verus! {

/// The tokens of a bookmark-pair listing: the bytes split at spaces
/// and newlines, empty pieces dropped.
pub open spec fn pair_tokens(data: Seq<u8>) -> Seq<Seq<u8>> {
    crate::scan::drop_empty(
        crate::scan::split_by(crate::scan::normalized(data, 32, 10, 32, 0), 0),
    )
}

/// Whether the `k`-th token pair is UTF-8 text on both sides.
pub open spec fn pair_ok(t: Seq<Seq<u8>>, k: int) -> bool {
    valid_utf8(t[2 * k]) && valid_utf8(t[2 * k + 1])
}

/// Whether one name and revision pair carries the `k`-th token pair.
pub open spec fn pair_matches(p: (String, String), t: Seq<Seq<u8>>, k: int) -> bool {
    encode_utf8(p.0@) == t[2 * k] && encode_utf8(p.1@) == t[2 * k + 1]
}

/// Parse bookmark pairs: the non-empty space- or newline-separated
/// chunks, taken two at a time as name and revision; a trailing odd
/// chunk is dropped.
pub fn parse_bookmark_pairs(data: &[u8]) -> (r: Result<Vec<(String, String)>, HglibError>)
    ensures
        ({
            let t = pair_tokens(data@);
            &&& (r is Ok <==> (forall|k: int| 0 <= k < t.len() / 2 ==> pair_ok(t, k)))
            &&& (r matches Ok(v) ==> v@.len() == pair_tokens(data@).len() / 2 && (forall|k: int|
                0 <= k < v@.len() ==> pair_matches(#[trigger] v@[k], pair_tokens(data@), k)))
        }),
{
    let flat = crate::scan::normalize3(data, 32, 10, 32, 0);
    let toks = crate::scan::tokens(flat.as_slice(), 0);
    let ghost t = pair_tokens(data@);
    proof {
        assert(toks.deep_view() == t);
    }
    let mut res: Vec<(String, String)> = Vec::new();
    let n = toks.len() / 2;
    let mut k: usize = 0;
    while k < n
        invariant
            0 <= k <= n,
            n == toks@.len() / 2,
            t == toks.deep_view(),
            t == pair_tokens(data@),
            t.len() == toks@.len(),
            res@.len() == k,
            forall|j: int| 0 <= j < k ==> pair_ok(t, j),
            forall|j: int| 0 <= j < k ==> pair_matches(#[trigger] res@[j], t, j),
        decreases n - k,
    {
        let tlen = toks.len();
        proof {
            assert(2 * (k as int) + 1 < tlen) by (nonlinear_arith)
                requires
                    0 <= k < n,
                    n == tlen / 2,
            ;
            assert(forall|j: int| 0 <= j < t.len() ==> #[trigger] t[j] =~= toks@[j]@);
        }
        let base = 2 * k;
        let name = match utf8_to_string(&toks[base]) {
            Some(s) => s,
            None => {
                proof {
                    assert(!pair_ok(t, k as int));
                }
                return Err(HglibError::from_str("invalid utf-8 in bookmark name"));
            },
        };
        let rev = match utf8_to_string(&toks[base + 1]) {
            Some(s) => s,
            None => {
                proof {
                    assert(!pair_ok(t, k as int));
                }
                return Err(HglibError::from_str("invalid utf-8 in bookmark revision"));
            },
        };
        let entry = (name, rev);
        proof {
            assert(pair_ok(t, k as int));
            assert(pair_matches(entry, t, k as int));
        }
        res.push(entry);
        k = k + 1;
    }
    Ok(res)
}

} // verus!

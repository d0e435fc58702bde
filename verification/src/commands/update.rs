//! The `update` command: move the working directory to another
//! revision, reporting how many files changed on the way.

use crate::builder::new_args;
use crate::builder::MkArg;
use crate::client::HglibError;
use crate::client::NoPrompt;
use crate::client::Runner;
use crate::scan::dec_value;
use crate::scan::first_digit;
use crate::scan::is_digit;
use crate::scan::lemma_first_digit;
use crate::scan::lemma_run_end;
use crate::scan::run_end;
use vstd::prelude::*;

verus! {

/// Parameters of `update`.
pub struct Arg<'a> {
    pub rev: &'a str,
    pub clean: bool,
    pub check: bool,
    pub date: &'a str,
}

impl<'a> Default for Arg<'a> {
    fn default() -> (r: Self)
        ensures
            r.rev@.len() == 0 && !r.clean && !r.check && r.date@.len() == 0,
    {
        proof {
            reveal_strlit("");
        }
        Arg { rev: "", clean: false, check: false, date: "" }
    }
}

impl<'a> Arg<'a> {
    /// The argument strings of this request.
    pub open spec fn spec_args(&self) -> Seq<Seq<char>> {
        seq!["update"@] + self.rev.contributes("-r"@) + self.clean.contributes("-C"@)
            + self.check.contributes("-c"@) + self.date.contributes("-d"@) + crate::builder::separator()
    }

    /// Render the request's argument list.
    pub fn to_args(&self) -> (r: Vec<String>)
        ensures
            r.deep_view() == self.spec_args(),
    {
        let mut args = new_args("update");
        self.rev.mk("-r", &mut args);
        self.clean.mk("-C", &mut args);
        self.check.mk("-c", &mut args);
        self.date.mk("-d", &mut args);
        crate::builder::push_separator(&mut args);
        args
    }

    /// Send the request and return the raw outcome.
    pub fn run<R: Runner>(&self, client: &mut R) -> Result<(Vec<u8>, i32), HglibError> {
        let args = self.to_args();
        let mut no_prompt: Option<NoPrompt> = None;
        client.runcommand(&args, &mut no_prompt)
    }
}

/// The counts the update summary line reports.
#[derive(Debug, PartialEq)]
pub struct Update {
    pub updated: u32,
    pub merged: u32,
    pub removed: u32,
    pub unresolved: u32,
}

/// The bounds of the first digit run at or after `from`.
pub open spec fn nth_run(s: Seq<u8>, from: int) -> (int, int) {
    let d = first_digit(s, from);
    (d, run_end(s, d))
}

/// The value of the first digit run at or after `from`.
pub open spec fn run_value(s: Seq<u8>, from: int) -> int {
    dec_value(s.subrange(nth_run(s, from).0, nth_run(s, from).1))
}

/// Whether a digit run exists at or after `from` and its value fits a
/// count.
pub open spec fn run_ok(s: Seq<u8>, from: int) -> bool {
    nth_run(s, from).0 < s.len() && run_value(s, from) <= u32::MAX
}

/// Read the decimal run that starts at the first digit at or after
/// `from`; fails when there is none or the value does not fit a count.
fn next_number(data: &[u8], from: usize) -> (r: Result<(u32, usize), HglibError>)
    requires
        from <= data@.len(),
    ensures
        r is Ok <==> run_ok(data@, from as int),
        r matches Ok(p) ==> ({
            &&& p.0 as int == run_value(data@, from as int)
            &&& p.1 as int == nth_run(data@, from as int).1
            &&& from <= p.1 <= data@.len()
        }),
{
    let ghost s = data@;
    let mut i = from;
    while i < data.len() && !(data[i] >= 48 && data[i] <= 57)
        invariant
            from <= i <= s.len(),
            s == data@,
            first_digit(s, from as int) == first_digit(s, i as int),
        decreases s.len() - i,
    {
        i = i + 1;
    }
    proof {
        lemma_first_digit(s, from as int);
    }
    if i == data.len() {
        proof {
            assert(first_digit(s, from as int) == s.len());
        }
        return Err(HglibError::from_str("no count found in update summary"));
    }
    proof {
        assert(is_digit(s[i as int]));
        assert(first_digit(s, i as int) == i);
        lemma_run_end(s, i as int);
    }
    let ghost d = i as int;
    let ghost stop = run_end(s, d);
    let mut e = i;
    let mut v: u64 = 0;
    let mut overflowed = false;
    let mut done = false;
    while e < data.len() && !overflowed && !done
        invariant
            done ==> e == stop,
            s == data@,
            0 <= d <= e <= stop,
            stop == run_end(s, d),
            stop <= s.len(),
            run_end(s, e as int) == stop,
            forall|j: int| d <= j < stop ==> is_digit(s[j]),
            crate::scan::all_digits(s.subrange(d, stop)),
            !overflowed ==> v as int == dec_value(s.subrange(d, e as int)),
            !overflowed ==> v <= 0xFFFFFFFFu64,
            overflowed ==> dec_value(s.subrange(d, e as int)) > u32::MAX,
            v <= 0x9FFFFFFFFu64,
        decreases s.len() - e + if overflowed || done {
            0int
        } else {
            1int
        },
    {
        let b = data[e];
        if b >= 48 && b <= 57 {
            proof {
                assert(s.subrange(d, e + 1).drop_last() =~= s.subrange(d, e as int));
                lemma_run_end(s, e + 1);
                assert(run_end(s, e + 1) == stop);
            }
            v = v * 10 + ((b - 48) as u64);
            e = e + 1;
            if v > 0xFFFFFFFFu64 {
                overflowed = true;
            }
        } else {
            proof {
                assert(run_end(s, e as int) == e);
            }
            done = true;
        }
    }
    proof {
        assert(s.subrange(d, e as int) =~= s.subrange(d, stop).take(e - d));
        crate::scan::lemma_all_digits_take(s.subrange(d, stop), e - d);
        crate::scan::lemma_dec_value_monotone(s.subrange(d, stop), e - d);
    }
    if overflowed {
        proof {
            assert(dec_value(s.subrange(d, stop)) > u32::MAX);
        }
        return Err(HglibError::from_str("count out of range in update summary"));
    }
    proof {
        if !done {
            assert(e == s.len());
            assert(run_end(s, e as int) == e);
        }
        assert(e == stop);
    }
    Ok((v as u32, e))
}

/// Parse the update summary line: the counts of updated, merged,
/// removed and unresolved files are its first four numbers, in order.
pub fn parse(data: &Vec<u8>) -> (r: Result<Update, HglibError>)
    ensures
        r is Ok <==> counts_ok(data@),
        r matches Ok(u) ==> counts_match(u, data@),
{
    let (updated, p1) = next_number(data.as_slice(), 0)?;
    let (merged, p2) = next_number(data.as_slice(), p1)?;
    let (removed, p3) = next_number(data.as_slice(), p2)?;
    let (unresolved, _) = next_number(data.as_slice(), p3)?;
    Ok(Update { updated, merged, removed, unresolved })
}

/// Whether a buffer's first four digit runs all parse as counts.
pub open spec fn counts_ok(s: Seq<u8>) -> bool {
    let e1 = nth_run(s, 0).1;
    let e2 = nth_run(s, e1).1;
    let e3 = nth_run(s, e2).1;
    run_ok(s, 0) && run_ok(s, e1) && run_ok(s, e2) && run_ok(s, e3)
}

/// Whether a summary carries a buffer's first four counts, in order.
pub open spec fn counts_match(u: Update, s: Seq<u8>) -> bool {
    let e1 = nth_run(s, 0).1;
    let e2 = nth_run(s, e1).1;
    let e3 = nth_run(s, e2).1;
    &&& u.updated as int == run_value(s, 0)
    &&& u.merged as int == run_value(s, e1)
    &&& u.removed as int == run_value(s, e2)
    &&& u.unresolved as int == run_value(s, e3)
}

/// Interpret one raw outcome of the update request: success output is
/// parsed; a failure with code 1 and captured output is a benign
/// summary (unresolved files) and is parsed the same way; any other
/// failure is passed through unchanged.
pub fn from_outcome(raw: Result<(Vec<u8>, i32), HglibError>) -> (r: Result<Update, HglibError>)
    ensures
        raw matches Ok(v) ==> ((r is Ok <==> counts_ok(v.0@)) && (r matches Ok(u) ==> counts_match(
            u,
            v.0@,
        ))),
        raw matches Err(e) ==> (if e.code == 1 && e.out is Some {
            (r is Ok <==> counts_ok(e.out->0@)) && (r matches Ok(u) ==> counts_match(
                u,
                e.out->0@,
            ))
        } else {
            r == Err::<Update, HglibError>(e)
        }),
{
    let data = match raw {
        Ok((data, _)) => data,
        Err(err) => {
            if err.code == 1 {
                match err.out {
                    Some(out) => out,
                    None => {
                        return Err(HglibError { code: err.code, out: None, msg: err.msg });
                    },
                }
            } else {
                return Err(err);
            }
        },
    };
    parse(&data)
}

/// Run `update` and interpret the outcome through [`from_outcome`].
pub fn update<R: Runner>(client: &mut R, x: Arg<'_>) -> (r: Result<Update, HglibError>) {
    let raw = x.run(client);
    from_outcome(raw)
}

} // verus!

//! The `phase` command: set or show the phase name of revisions.

use crate::builder::new_args;
use crate::builder::guarded_positionals;
use crate::builder::push_guarded_positionals;
use crate::builder::MkArg;
use crate::client::HglibError;
use crate::client::NoPrompt;
use crate::client::Runner;
use crate::scan::all_digits;
use crate::scan::dec_value;
use crate::scan::drop_empty;
use crate::scan::normalize3;
use crate::scan::normalized;
use crate::scan::split_by;
use crate::scan::tokens;
use crate::scan::utf8_to_string;
use vstd::prelude::*;
use vstd::utf8::encode_utf8;
use vstd::utf8::valid_utf8;

verus! {

/// Parameters of `phase`.
pub struct Arg<'a> {
    pub revs: &'a [&'a str],
    pub secret: bool,
    pub draft: bool,
    pub public: bool,
    pub force: bool,
}

impl<'a> Default for Arg<'a> {
    fn default() -> (r: Self)
        ensures
            r.revs@.len() == 0 && !r.secret && !r.draft && !r.public && !r.force,
    {
        Arg { revs: &[], secret: false, draft: false, public: false, force: false }
    }
}

impl<'a> Arg<'a> {
    /// The argument strings of this request.
    pub open spec fn spec_args(&self) -> Seq<Seq<char>> {
        seq!["phase"@] + self.secret.contributes("--secret"@) + self.draft.contributes("--draft"@)
            + self.public.contributes("--public"@) + self.force.contributes("--force"@)
            + guarded_positionals(self.revs.deep_view())
    }

    /// Render the request's argument list.
    pub fn to_args(&self) -> (r: Vec<String>)
        ensures
            r.deep_view() == self.spec_args(),
    {
        let mut args = new_args("phase");
        self.secret.mk("--secret", &mut args);
        self.draft.mk("--draft", &mut args);
        self.public.mk("--public", &mut args);
        self.force.mk("--force", &mut args);
        push_guarded_positionals(&mut args, self.revs);
        args
    }

    /// Send the request and return the raw outcome.
    pub fn run<R: Runner>(&self, client: &mut R) -> Result<(Vec<u8>, i32), HglibError> {
        let args = self.to_args();
        let mut no_prompt: Option<NoPrompt> = None;
        client.runcommand(&args, &mut no_prompt)
    }
}

/// One phase entry: a revision number and its phase name.
#[derive(Debug, PartialEq)]
pub struct Phase {
    pub num: u64,
    pub phase: String,
}

/// The tokens of a phase listing: the output split at newlines, spaces
/// and colons, empty pieces dropped.
pub open spec fn phase_tokens(data: Seq<u8>) -> Seq<Seq<u8>> {
    drop_empty(split_by(normalized(data, 10, 32, 58, 0), 0))
}

/// Whether the `k`-th token pair parses: a decimal revision and a
/// UTF-8 phase name.
pub open spec fn pair_ok(t: Seq<Seq<u8>>, k: int) -> bool {
    &&& all_digits(t[2 * k]) && dec_value(t[2 * k]) <= u64::MAX
    &&& valid_utf8(t[2 * k + 1])
}

/// Whether one entry carries the `k`-th token pair.
pub open spec fn pair_matches(x: Phase, t: Seq<Seq<u8>>, k: int) -> bool {
    x.num as int == dec_value(t[2 * k]) && encode_utf8(x.phase@) == t[2 * k + 1]
}

/// Parse a phase listing: token pairs of revision and phase name; a
/// trailing odd token is ignored.
pub fn parse(data: &Vec<u8>) -> (r: Result<Vec<Phase>, HglibError>)
    ensures
        ({
            let t = phase_tokens(data@);
            &&& (r is Ok <==> (forall|k: int| 0 <= k < t.len() / 2 ==> pair_ok(t, k)))
            &&& (r matches Ok(v) ==> v@.len() == phase_tokens(data@).len() / 2 && (forall|k: int|
                0 <= k < v@.len() ==> pair_matches(#[trigger] v@[k], phase_tokens(data@), k)))
        }),
{
    let flat = normalize3(data.as_slice(), 10, 32, 58, 0);
    let toks = tokens(flat.as_slice(), 0);
    let ghost t = phase_tokens(data@);
    proof {
        assert(toks.deep_view() == t);
    }
    let n = toks.len() / 2;
    let mut res: Vec<Phase> = Vec::new();
    let mut k: usize = 0;
    while k < n
        invariant
            0 <= k <= n,
            n == toks@.len() / 2,
            t == toks.deep_view(),
            t == phase_tokens(data@),
            t.len() == toks@.len(),
            res@.len() == k,
            forall|j: int| 0 <= j < k ==> pair_ok(t, j),
            forall|j: int| 0 <= j < k ==> pair_matches(#[trigger] res@[j], t, j),
        decreases n - k,
    {
        let tlen = toks.len();
        proof {
            assert(2 * (k as int) + 1 < tlen) by (nonlinear_arith)
                requires
                    0 <= k < n,
                    n == tlen / 2,
            ;
            assert(forall|j: int| 0 <= j < t.len() ==> #[trigger] t[j] =~= toks@[j]@);
        }
        let base = 2 * k;
        let num = match crate::scan::parse_dec_u64(toks[base].as_slice()) {
            Some(v) => v,
            None => {
                proof {
                    assert(!pair_ok(t, k as int));
                }
                return Err(HglibError::from_str("invalid revision number in phase"));
            },
        };
        let phase = match utf8_to_string(&toks[base + 1]) {
            Some(s) => s,
            None => {
                proof {
                    assert(!pair_ok(t, k as int));
                }
                return Err(HglibError::from_str("invalid utf-8 in phase name"));
            },
        };
        let entry = Phase { num, phase };
        proof {
            assert(pair_ok(t, k as int));
            assert(pair_matches(entry, t, k as int));
        }
        res.push(entry);
        k = k + 1;
    }
    Ok(res)
}

/// Run `phase`; the listing comes back only when no phase was being
/// set.
pub fn phase<R: Runner>(client: &mut R, x: Arg<'_>) -> (r: Result<
    Option<Vec<Phase>>,
    HglibError,
>)
    ensures
        ((x.draft || x.public || x.secret) && r is Ok) ==> r->Ok_0 is None,
{
    let listing = !(x.draft || x.public || x.secret);
    let (data, _) = x.run(client)?;
    if listing {
        match parse(&data) {
            Ok(v) => Ok(Some(v)),
            Err(e) => Err(e),
        }
    } else {
        Ok(None)
    }
}

} // verus!

//! The `status` command: list changed, missing, untracked and ignored
//! files, one NUL-terminated entry per file.

use crate::builder::new_args;
use crate::builder::MkArg;
use crate::client::HglibError;
use crate::client::NoPrompt;
use crate::client::Runner;
use crate::scan::split_by;
use crate::scan::split_bytes;
use crate::scan::utf8_to_string;
use vstd::prelude::*;
use vstd::slice::slice_subrange;
use vstd::slice::slice_to_vec;
use vstd::utf8::encode_utf8;
use vstd::utf8::valid_utf8;

verus! {

/// Parameters of `status`.
pub struct Arg<'a> {
    pub rev: &'a [&'a str],
    pub change: &'a str,
    pub all: bool,
    pub modified: bool,
    pub added: bool,
    pub removed: bool,
    pub deleted: bool,
    pub clean: bool,
    pub unknown: bool,
    pub ignored: bool,
    pub copies: bool,
    pub subrepos: bool,
    pub incl: &'a [&'a str],
    pub excl: &'a [&'a str],
}

impl<'a> Default for Arg<'a> {
    fn default() -> (r: Self)
        ensures
            r.rev@.len() == 0 && r.change@.len() == 0 && !r.all && !r.modified && !r.added
                && !r.removed && !r.deleted && !r.clean && !r.unknown && !r.ignored && !r.copies
                && !r.subrepos && r.incl@.len() == 0 && r.excl@.len() == 0,
    {
        proof {
            reveal_strlit("");
        }
        Arg {
            rev: &[],
            change: "",
            all: false,
            modified: false,
            added: false,
            removed: false,
            deleted: false,
            clean: false,
            unknown: false,
            ignored: false,
            copies: false,
            subrepos: false,
            incl: &[],
            excl: &[],
        }
    }
}

impl<'a> Arg<'a> {
    /// The argument strings of this request.
    pub open spec fn spec_args(&self) -> Seq<Seq<char>> {
        seq!["status"@] + self.rev.contributes("--rev"@) + self.change.contributes("--change"@)
            + self.all.contributes("-A"@) + self.modified.contributes("-m"@)
            + self.added.contributes("-a"@) + self.removed.contributes("-r"@)
            + self.deleted.contributes("-d"@) + self.clean.contributes("-c"@)
            + self.unknown.contributes("-u"@) + self.ignored.contributes("-i"@)
            + self.copies.contributes("-C"@) + self.subrepos.contributes("-S"@)
            + self.incl.contributes("-I"@) + self.excl.contributes("-X"@) + true.contributes(
            "--print0"@,
        ) + crate::builder::separator()
    }

    /// Render the request's argument list.
    pub fn to_args(&self) -> (r: Vec<String>)
        ensures
            r.deep_view() == self.spec_args(),
    {
        let mut args = new_args("status");
        self.rev.mk("--rev", &mut args);
        self.change.mk("--change", &mut args);
        self.all.mk("-A", &mut args);
        self.modified.mk("-m", &mut args);
        self.added.mk("-a", &mut args);
        self.removed.mk("-r", &mut args);
        self.deleted.mk("-d", &mut args);
        self.clean.mk("-c", &mut args);
        self.unknown.mk("-u", &mut args);
        self.ignored.mk("-i", &mut args);
        self.copies.mk("-C", &mut args);
        self.subrepos.mk("-S", &mut args);
        self.incl.mk("-I", &mut args);
        self.excl.mk("-X", &mut args);
        true.mk("--print0", &mut args);
        crate::builder::push_separator(&mut args);
        args
    }

    /// Send the request and return the raw outcome.
    pub fn run<R: Runner>(&self, client: &mut R) -> Result<(Vec<u8>, i32), HglibError> {
        let args = self.to_args();
        let mut no_prompt: Option<NoPrompt> = None;
        client.runcommand(&args, &mut no_prompt)
    }
}

/// The state of one file, told apart by the status letter.
#[derive(Debug, PartialEq)]
pub enum Code {
    Modified,
    Added,
    Removed,
    Clean,
    Missing,
    NotTracked,
    Ignored,
    Origin,
}

/// One status entry: a state and the file it applies to.
#[derive(Debug, PartialEq)]
pub struct Status {
    pub code: Code,
    pub filename: String,
}

/// The state a status letter stands for.
pub open spec fn code_of(b: u8) -> Option<Code> {
    if b == 77 {
        Some(Code::Modified)
    } else if b == 65 {
        Some(Code::Added)
    } else if b == 82 {
        Some(Code::Removed)
    } else if b == 67 {
        Some(Code::Clean)
    } else if b == 33 {
        Some(Code::Missing)
    } else if b == 63 {
        Some(Code::NotTracked)
    } else if b == 73 {
        Some(Code::Ignored)
    } else if b == 32 {
        Some(Code::Origin)
    } else {
        None
    }
}

/// Classify one status letter.
pub fn code_from_byte(b: u8) -> (r: Option<Code>)
    ensures
        r == code_of(b),
{
    if b == 77 {
        Some(Code::Modified)
    } else if b == 65 {
        Some(Code::Added)
    } else if b == 82 {
        Some(Code::Removed)
    } else if b == 67 {
        Some(Code::Clean)
    } else if b == 33 {
        Some(Code::Missing)
    } else if b == 63 {
        Some(Code::NotTracked)
    } else if b == 73 {
        Some(Code::Ignored)
    } else if b == 32 {
        Some(Code::Origin)
    } else {
        None
    }
}

/// The entries carried by a list of NUL-separated pieces: pieces
/// shorter than three bytes are skipped, and anything with an unknown
/// status letter or a non-UTF-8 file name spoils the whole parse.
pub open spec fn spec_statuses(pieces: Seq<Seq<u8>>) -> Option<Seq<(Code, Seq<u8>)>>
    decreases pieces.len(),
{
    if pieces.len() == 0 {
        Some(Seq::empty())
    } else {
        let p = pieces[0];
        let rest = spec_statuses(pieces.drop_first());
        if p.len() < 3 {
            rest
        } else if code_of(p[0]) is None {
            None
        } else if !valid_utf8(p.skip(2)) {
            None
        } else {
            match rest {
                Some(t) => Some(seq![(code_of(p[0]).unwrap(), p.skip(2))] + t),
                None => None,
            }
        }
    }
}

/// Parse the NUL-terminated entries of the server's output.
pub fn parse(data: &Vec<u8>) -> (r: Result<Vec<Status>, HglibError>)
    ensures
        r is Ok <==> spec_statuses(split_by(data@, 0)) is Some,
        r matches Ok(v) ==> (spec_statuses(split_by(data@, 0)) matches Some(specs) && v@.len()
            == specs.len() && (forall|k: int|
            0 <= k < v@.len() ==> (#[trigger] v@[k]).code == specs[k].0 && encode_utf8(v@[k].filename@)
                == specs[k].1)),
{
    let pieces = split_bytes(data.as_slice(), 0);
    let ghost f = split_by(data@, 0);
    let mut res: Vec<Status> = Vec::new();
    let ghost mut done: Seq<(Code, Seq<u8>)> = Seq::empty();
    let mut i: usize = 0;
    proof {
        assert(f.skip(0) =~= f);
    }
    while i < pieces.len()
        invariant
            0 <= i <= pieces@.len(),
            f == pieces.deep_view(),
            f == split_by(data@, 0),
            f.len() == pieces@.len(),
            res@.len() == done.len(),
            forall|k: int|
                0 <= k < res@.len() ==> (#[trigger] res@[k]).code == done[k].0 && encode_utf8(
                    res@[k].filename@,
                ) == done[k].1,
            spec_statuses(f) == (match spec_statuses(f.skip(i as int)) {
                Some(t) => Some(done + t),
                None => None::<Seq<(Code, Seq<u8>)>>,
            }),
        decreases pieces@.len() - i,
    {
        let ghost rem = f.skip(i as int);
        proof {
            assert(forall|j: int| 0 <= j < f.len() ==> #[trigger] f[j] =~= pieces@[j]@);
            assert(rem[0] == f[i as int]);
            assert(rem.drop_first() =~= f.skip(i + 1));
        }
        let piece = &pieces[i];
        if piece.len() >= 3 {
            let code = match code_from_byte(piece[0]) {
                Some(c) => c,
                None => {
                    return Err(HglibError::from_str("Invalid code"));
                },
            };
            let name_bytes = slice_to_vec(slice_subrange(piece.as_slice(), 2, piece.len()));
            proof {
                assert(name_bytes@ =~= rem[0].skip(2));
            }
            let filename = match utf8_to_string(&name_bytes) {
                Some(s) => s,
                None => {
                    return Err(HglibError::from_str("invalid utf-8 in file name"));
                },
            };
            let entry = Status { code, filename };
            res.push(entry);
            proof {
                done = done.push((code_of(rem[0][0]).unwrap(), rem[0].skip(2)));
                assert(forall|t: Seq<(Code, Seq<u8>)>|
                    done + t =~= done.drop_last() + (seq![(code_of(rem[0][0]).unwrap(), rem[0].skip(2))]
                        + t));
            }
        }
        i = i + 1;
    }
    proof {
        assert(f.skip(f.len() as int) =~= Seq::<Seq<u8>>::empty());
        assert(spec_statuses(Seq::empty()) == Some(Seq::<(Code, Seq<u8>)>::empty()));
        assert(done + Seq::<(Code, Seq<u8>)>::empty() =~= done);
    }
    Ok(res)
}

/// Run `status`.  Naming both a revision and a change is rejected
/// before anything is sent.
pub fn status<R: Runner>(client: &mut R, x: Arg<'_>) -> (r: Result<Vec<Status>, HglibError>)
    ensures
        (x.rev@.len() > 0 && x.change@.len() > 0) ==> (r matches Err(e) && e.code == -1 && e.msg@
            == "Cannot specify both rev and change"@),
{
    if x.rev.len() > 0 && !x.change.is_empty() {
        return Err(HglibError::from_str("Cannot specify both rev and change"));
    }
    let (data, _) = x.run(client)?;
    parse(&data)
}

} // verus!

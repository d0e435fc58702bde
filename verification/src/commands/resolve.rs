//! The `resolve` command: retry or list merges of unresolved files.

use crate::builder::new_args;
use crate::builder::guarded_positionals;
use crate::builder::push_guarded_positionals;
use crate::builder::MkArg;
use crate::client::HglibError;
use crate::client::NoPrompt;
use crate::client::Runner;
use crate::scan::split_by;
use crate::scan::split_bytes;
use crate::scan::utf8_to_string;
use vstd::prelude::*;
use vstd::slice::slice_subrange;
use vstd::slice::slice_to_vec;
use vstd::utf8::encode_utf8;
use vstd::utf8::valid_utf8;

verus! {

/// Parameters of `resolve`.
pub struct Arg<'a> {
    pub file: &'a [&'a str],
    pub all: bool,
    pub listfiles: bool,
    pub mark: bool,
    pub unmark: bool,
    pub tool: &'a str,
    pub incl: &'a [&'a str],
    pub excl: &'a [&'a str],
}

impl<'a> Default for Arg<'a> {
    fn default() -> (r: Self)
        ensures
            r.file@.len() == 0 && !r.all && !r.listfiles && !r.mark && !r.unmark && r.tool@.len()
                == 0 && r.incl@.len() == 0 && r.excl@.len() == 0,
    {
        proof {
            reveal_strlit("");
        }
        Arg {
            file: &[],
            all: false,
            listfiles: false,
            mark: false,
            unmark: false,
            tool: "",
            incl: &[],
            excl: &[],
        }
    }
}

impl<'a> Arg<'a> {
    /// The argument strings of this request.
    pub open spec fn spec_args(&self) -> Seq<Seq<char>> {
        seq!["resolve"@] + self.all.contributes("-a"@) + self.listfiles.contributes("-l"@)
            + self.mark.contributes("-m"@) + self.unmark.contributes("-u"@)
            + self.tool.contributes("-t"@) + self.incl.contributes("-I"@) + self.excl.contributes(
            "-X"@,
        ) + guarded_positionals(self.file.deep_view())
    }

    /// Render the request's argument list.
    pub fn to_args(&self) -> (r: Vec<String>)
        ensures
            r.deep_view() == self.spec_args(),
    {
        let mut args = new_args("resolve");
        self.all.mk("-a", &mut args);
        self.listfiles.mk("-l", &mut args);
        self.mark.mk("-m", &mut args);
        self.unmark.mk("-u", &mut args);
        self.tool.mk("-t", &mut args);
        self.incl.mk("-I", &mut args);
        self.excl.mk("-X", &mut args);
        push_guarded_positionals(&mut args, self.file);
        args
    }

    /// Send the request and return the raw outcome.
    pub fn run<R: Runner>(&self, client: &mut R) -> Result<(Vec<u8>, i32), HglibError> {
        let args = self.to_args();
        let mut no_prompt: Option<NoPrompt> = None;
        client.runcommand(&args, &mut no_prompt)
    }
}

/// Whether one file's merge is resolved or still open.
#[derive(Debug, PartialEq)]
pub enum Kind {
    Resolved,
    Unresolved,
}

/// One entry of the resolve listing.
#[derive(Debug, PartialEq)]
pub struct Resolve {
    pub kind: Kind,
    pub filename: String,
}

/// The kind a listing letter stands for.
pub open spec fn kind_of(b: u8) -> Option<Kind> {
    if b == 82 {
        Some(Kind::Resolved)
    } else if b == 85 {
        Some(Kind::Unresolved)
    } else {
        None
    }
}

/// The entries carried by the listing's lines: lines shorter than
/// three bytes are skipped.
pub open spec fn spec_entries(lines: Seq<Seq<u8>>) -> Option<Seq<(Kind, Seq<u8>)>>
    decreases lines.len(),
{
    if lines.len() == 0 {
        Some(Seq::empty())
    } else {
        let p = lines[0];
        let rest = spec_entries(lines.drop_first());
        if p.len() < 3 {
            rest
        } else if kind_of(p[0]) is None {
            None
        } else if !valid_utf8(p.skip(2)) {
            None
        } else {
            match rest {
                Some(t) => Some(seq![(kind_of(p[0]).unwrap(), p.skip(2))] + t),
                None => None,
            }
        }
    }
}

/// Parse the lines of a resolve listing.
pub fn parse(data: &Vec<u8>) -> (r: Result<Vec<Resolve>, HglibError>)
    ensures
        r is Ok <==> spec_entries(split_by(data@, 10)) is Some,
        r matches Ok(v) ==> (spec_entries(split_by(data@, 10)) matches Some(specs) && v@.len()
            == specs.len() && (forall|k: int|
            0 <= k < v@.len() ==> (#[trigger] v@[k]).kind == specs[k].0 && encode_utf8(
                v@[k].filename@,
            ) == specs[k].1)),
{
    let lines = split_bytes(data.as_slice(), 10);
    let ghost f = split_by(data@, 10);
    let mut res: Vec<Resolve> = Vec::new();
    let ghost mut done: Seq<(Kind, Seq<u8>)> = Seq::empty();
    let mut i: usize = 0;
    proof {
        assert(f.skip(0) =~= f);
    }
    while i < lines.len()
        invariant
            0 <= i <= lines@.len(),
            f == lines.deep_view(),
            f == split_by(data@, 10),
            f.len() == lines@.len(),
            res@.len() == done.len(),
            forall|k: int|
                0 <= k < res@.len() ==> (#[trigger] res@[k]).kind == done[k].0 && encode_utf8(
                    res@[k].filename@,
                ) == done[k].1,
            spec_entries(f) == (match spec_entries(f.skip(i as int)) {
                Some(t) => Some(done + t),
                None => None::<Seq<(Kind, Seq<u8>)>>,
            }),
        decreases lines@.len() - i,
    {
        let ghost rem = f.skip(i as int);
        proof {
            assert(forall|j: int| 0 <= j < f.len() ==> #[trigger] f[j] =~= lines@[j]@);
            assert(rem[0] == f[i as int]);
            assert(rem.drop_first() =~= f.skip(i + 1));
        }
        let line = &lines[i];
        if line.len() >= 3 {
            let b = line[0];
            let kind = if b == 82 {
                Kind::Resolved
            } else if b == 85 {
                Kind::Unresolved
            } else {
                return Err(HglibError::from_str("Invalid value"));
            };
            let name_bytes = slice_to_vec(slice_subrange(line.as_slice(), 2, line.len()));
            proof {
                assert(name_bytes@ =~= rem[0].skip(2));
            }
            let filename = match utf8_to_string(&name_bytes) {
                Some(s) => s,
                None => {
                    return Err(HglibError::from_str("invalid utf-8 in file name"));
                },
            };
            res.push(Resolve { kind, filename });
            proof {
                done = done.push((kind_of(rem[0][0]).unwrap(), rem[0].skip(2)));
                assert(forall|t: Seq<(Kind, Seq<u8>)>|
                    done + t =~= done.drop_last() + (seq![(kind_of(rem[0][0]).unwrap(), rem[0].skip(
                        2,
                    ))] + t));
            }
        }
        i = i + 1;
    }
    proof {
        assert(f.skip(f.len() as int) =~= Seq::<Seq<u8>>::empty());
        assert(spec_entries(Seq::empty()) == Some(Seq::<(Kind, Seq<u8>)>::empty()));
        assert(done + Seq::<(Kind, Seq<u8>)>::empty() =~= done);
    }
    Ok(res)
}

/// Run `resolve`; the entries come back only when a listing was asked
/// for.
pub fn resolve<R: Runner>(client: &mut R, x: Arg<'_>) -> (r: Result<
    Option<Vec<Resolve>>,
    HglibError,
>)
    ensures
        (!x.listfiles && r is Ok) ==> r->Ok_0 is None,
{
    let listing = x.listfiles;
    let (data, _) = x.run(client)?;
    if listing {
        match parse(&data) {
            Ok(v) => Ok(Some(v)),
            Err(e) => Err(e),
        }
    } else {
        Ok(None)
    }
}

} // verus!

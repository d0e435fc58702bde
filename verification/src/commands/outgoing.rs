//! The `outgoing` command: list the changesets that would be pushed from
//! the other repository.

use crate::builder::new_args;
use crate::builder::positional1;
use crate::builder::push_separator;
use crate::builder::separator;
use crate::builder::push_positional;
use crate::builder::MkArg;
use crate::client::HglibError;
use crate::client::NoPrompt;
use crate::client::Runner;
use crate::commands::common;
use vstd::prelude::*;
use vstd::slice::slice_to_vec;

verus! {

/// Parameters of `outgoing`.
pub struct Arg<'a> {
    pub revrange: &'a [&'a str],
    pub path: &'a str,
    pub force: bool,
    pub newest: bool,
    pub bookmarks: bool,
    pub branch: &'a str,
    pub limit: Option<u32>,
    pub nomerges: bool,
    pub subrepos: bool,
}

impl<'a> Default for Arg<'a> {
    fn default() -> (r: Self)
        ensures
            r.revrange@.len() == 0 && r.path@.len() == 0 && !r.force && !r.newest && !r.bookmarks
                && r.branch@.len() == 0 && r.limit is None && !r.nomerges && !r.subrepos,
    {
        proof {
            reveal_strlit("");
        }
        Arg {
            revrange: &[],
            path: "",
            force: false,
            newest: false,
            bookmarks: false,
            branch: "",
            limit: None,
            nomerges: false,
            subrepos: false,
        }
    }
}

impl<'a> Arg<'a> {
    /// The argument strings of this request.
    pub open spec fn spec_args(&self) -> Seq<Seq<char>> {
        seq!["outgoing"@] + common::template_contrib() + self.revrange.contributes("-r"@)
            + self.force.contributes("-f"@) + self.newest.contributes("-n"@)
            + self.bookmarks.contributes("-B"@) + self.branch.contributes("-b"@)
            + self.limit.contributes("-l"@) + self.nomerges.contributes("-M"@)
            + self.subrepos.contributes("-S"@) + separator() + positional1(self.path@)
    }

    /// Render the request's argument list.
    pub fn to_args(&self) -> (r: Vec<String>)
        ensures
            r.deep_view() == self.spec_args(),
    {
        let mut args = new_args("outgoing");
        common::push_template(&mut args);
        self.revrange.mk("-r", &mut args);
        self.force.mk("-f", &mut args);
        self.newest.mk("-n", &mut args);
        self.bookmarks.mk("-B", &mut args);
        self.branch.mk("-b", &mut args);
        self.limit.mk("-l", &mut args);
        self.nomerges.mk("-M", &mut args);
        self.subrepos.mk("-S", &mut args);
        push_separator(&mut args);
        push_positional(&mut args, self.path);
        args
    }

    /// Send the request and return the raw outcome.
    pub fn run<R: Runner>(&self, client: &mut R) -> Result<(Vec<u8>, i32), HglibError> {
        let args = self.to_args();
        let mut no_prompt: Option<NoPrompt> = None;
        client.runcommand(&args, &mut no_prompt)
    }
}

/// One bookmark of the other repository.
#[derive(Debug, PartialEq)]
pub struct Bookmark {
    pub bookmark: String,
    pub revision: String,
}

/// What `outgoing` found: changesets, bookmarks, or nothing at all.
#[derive(Debug, PartialEq)]
pub enum Outgoing {
    Revisions(Vec<common::Revision>),
    Bookmarks(Vec<Bookmark>),
    Empty,
}

/// Whether an outcome's report body is well formed for the form that
/// was asked: bookmark pairs, or template-rendered changesets.
pub open spec fn body_ok(rest: Seq<u8>, wants_bookmarks: bool) -> bool {
    if wants_bookmarks {
        forall|k: int|
            0 <= k < common::pair_tokens(rest).len() / 2 ==> common::pair_ok(
                common::pair_tokens(rest),
                k,
            )
    } else {
        forall|k: int|
            0 <= k < common::rev_fields(rest).len() / 7 ==> common::rev_group_ok(
                common::rev_fields(rest),
                k,
            )
    }
}

/// Interpret one raw outcome of the `outgoing` request: code 1 means
/// nothing was found, the first two report lines are dropped, and the
/// rest parses as bookmark pairs or as changesets.
pub fn from_outcome(raw: Result<(Vec<u8>, i32), HglibError>, wants_bookmarks: bool) -> (r: Result<
    Outgoing,
    HglibError,
>)
    ensures
        raw matches Err(e) ==> (if e.code == 1 {
            r == Ok::<Outgoing, HglibError>(Outgoing::Empty)
        } else {
            r == Err::<Outgoing, HglibError>(e)
        }),
        raw matches Ok(v) ==> ({
            let rest = common::after_lines(v.0@, 2);
            &&& (v.0@.len() == 0 ==> r == Ok::<Outgoing, HglibError>(Outgoing::Empty))
            &&& (v.0@.len() > 0 ==> {
                &&& (r is Ok <==> body_ok(rest, wants_bookmarks))
                &&& (wants_bookmarks ==> (r matches Ok(x) ==> (x matches Outgoing::Bookmarks(bs)
                    && bs@.len() == common::pair_tokens(rest).len() / 2 && (forall|k: int|
                    0 <= k < bs@.len() ==> ({
                        let t = common::pair_tokens(rest);
                        vstd::utf8::encode_utf8((#[trigger] bs@[k]).bookmark@) == t[2 * k]
                            && vstd::utf8::encode_utf8(bs@[k].revision@) == t[2 * k + 1]
                    })))))
                &&& (!wants_bookmarks ==> (r matches Ok(x) ==> (x matches Outgoing::Revisions(revs)
                    && revs@.len() == common::rev_fields(rest).len() / 7 && (forall|k: int|
                    0 <= k < revs@.len() ==> common::rev_matches(
                        #[trigger] revs@[k],
                        common::rev_fields(rest),
                        k,
                    )))))
            })
        }),
{
    let data = match raw {
        Ok((data, _)) => data,
        Err(e) => {
            if e.code == 1 {
                return Ok(Outgoing::Empty);
            } else {
                return Err(e);
            }
        },
    };
    if data.len() == 0 {
        return Ok(Outgoing::Empty);
    }
    let rest = common::eatlines(data.as_slice(), 2);
    if wants_bookmarks {
        let pairs = match common::parse_bookmark_pairs(rest) {
            Ok(pairs) => pairs,
            Err(e) => {
                return Err(e);
            },
        };
        let mut res: Vec<Bookmark> = Vec::new();
        let mut i: usize = 0;
        while i < pairs.len()
            invariant
                0 <= i <= pairs@.len(),
                res@.len() == i,
                forall|j: int|
                    0 <= j < i ==> (#[trigger] res@[j]).bookmark@ == pairs@[j].0@ && res@[j].revision@
                        == pairs@[j].1@,
            decreases pairs@.len() - i,
        {
            let name = pairs[i].0.clone();
            let rev = pairs[i].1.clone();
            res.push(Bookmark { bookmark: name, revision: rev });
            i = i + 1;
        }
        Ok(Outgoing::Bookmarks(res))
    } else {
        let owned = slice_to_vec(rest);
        match common::parserevs(owned) {
            Ok(revs) => Ok(Outgoing::Revisions(revs)),
            Err(e) => Err(e),
        }
    }
}

/// Run `outgoing` and interpret the outcome through [`from_outcome`].
pub fn outgoing<R: Runner>(client: &mut R, x: Arg<'_>) -> (r: Result<Outgoing, HglibError>) {
    let wants_bookmarks = x.bookmarks;
    let raw = x.run(client);
    from_outcome(raw, wants_bookmarks)
}

} // verus!

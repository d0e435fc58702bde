//! The `log` command: list the revision history of the repository or
//! of files.

use crate::builder::new_args;
use crate::builder::guarded_positionals;
use crate::builder::push_guarded_positionals;
use crate::builder::MkArg;
use crate::client::HglibError;
use crate::client::NoPrompt;
use crate::client::Runner;
use crate::commands::common;
use vstd::prelude::*;

verus! {

/// Parameters of `log`.
pub struct Arg<'a> {
    pub revrange: &'a [&'a str],
    pub files: &'a [&'a str],
    pub follow: bool,
    pub followfirst: bool,
    pub date: &'a str,
    pub copies: bool,
    pub keyword: &'a [&'a str],
    pub removed: bool,
    pub onlymerges: bool,
    pub user: &'a [&'a str],
    pub branch: &'a [&'a str],
    pub prune: &'a [&'a str],
    pub hidden: bool,
    pub limit: Option<u32>,
    pub nomerges: bool,
    pub incl: &'a [&'a str],
    pub excl: &'a [&'a str],
}

impl<'a> Default for Arg<'a> {
    fn default() -> (r: Self)
        ensures
            r.revrange@.len() == 0 && r.files@.len() == 0 && !r.follow && !r.followfirst
                && r.date@.len() == 0 && !r.copies && r.keyword@.len() == 0 && !r.removed
                && !r.onlymerges && r.user@.len() == 0 && r.branch@.len() == 0 && r.prune@.len()
                == 0 && !r.hidden && r.limit is None && !r.nomerges && r.incl@.len() == 0
                && r.excl@.len() == 0,
    {
        proof {
            reveal_strlit("");
        }
        Arg {
            revrange: &[],
            files: &[],
            follow: false,
            followfirst: false,
            date: "",
            copies: false,
            keyword: &[],
            removed: false,
            onlymerges: false,
            user: &[],
            branch: &[],
            prune: &[],
            hidden: false,
            limit: None,
            nomerges: false,
            incl: &[],
            excl: &[],
        }
    }
}

impl<'a> Arg<'a> {
    /// The argument strings of this request.
    pub open spec fn spec_args(&self) -> Seq<Seq<char>> {
        seq!["log"@] + common::template_contrib() + self.revrange.contributes("-r"@)
            + self.follow.contributes("-f"@) + self.followfirst.contributes("--follow-first"@)
            + self.date.contributes("-d"@) + self.copies.contributes("-C"@)
            + self.keyword.contributes("-k"@) + self.removed.contributes("--removed"@)
            + self.onlymerges.contributes("-m"@) + self.user.contributes("-u"@)
            + self.branch.contributes("-b"@) + self.prune.contributes("-P"@)
            + self.hidden.contributes("--hidden"@) + self.limit.contributes("-l"@)
            + self.nomerges.contributes("-M"@) + self.incl.contributes("-I"@)
            + self.excl.contributes("-X"@) + guarded_positionals(self.files.deep_view())
    }

    /// Render the request's argument list.
    pub fn to_args(&self) -> (r: Vec<String>)
        ensures
            r.deep_view() == self.spec_args(),
    {
        let mut args = new_args("log");
        common::push_template(&mut args);
        self.revrange.mk("-r", &mut args);
        self.follow.mk("-f", &mut args);
        self.followfirst.mk("--follow-first", &mut args);
        self.date.mk("-d", &mut args);
        self.copies.mk("-C", &mut args);
        self.keyword.mk("-k", &mut args);
        self.removed.mk("--removed", &mut args);
        self.onlymerges.mk("-m", &mut args);
        self.user.mk("-u", &mut args);
        self.branch.mk("-b", &mut args);
        self.prune.mk("-P", &mut args);
        self.hidden.mk("--hidden", &mut args);
        self.limit.mk("-l", &mut args);
        self.nomerges.mk("-M", &mut args);
        self.incl.mk("-I", &mut args);
        self.excl.mk("-X", &mut args);
        push_guarded_positionals(&mut args, self.files);
        args
    }

    /// Send the request and return the raw outcome.
    pub fn run<R: Runner>(&self, client: &mut R) -> Result<(Vec<u8>, i32), HglibError> {
        let args = self.to_args();
        let mut no_prompt: Option<NoPrompt> = None;
        client.runcommand(&args, &mut no_prompt)
    }
}

/// Run `log` and return the rendered changesets.
pub fn log<R: Runner>(client: &mut R, x: Arg<'_>) -> (r: Result<Vec<common::Revision>, HglibError>) {
    let (data, _) = x.run(client)?;
    common::parserevs(data)
}

} // verus!

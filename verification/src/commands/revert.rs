//! The `revert` command: restore files to an earlier state.

use crate::builder::new_args;
use crate::builder::guarded_positionals;
use crate::builder::push_guarded_positionals;
use crate::builder::MkArg;
use crate::client::HglibError;
use crate::client::NoPrompt;
use crate::client::Runner;
use vstd::prelude::*;

verus! {

/// Parameters of `revert`.
pub struct Arg<'a> {
    pub files: &'a [&'a str],
    pub rev: &'a [&'a str],
    pub all: bool,
    pub date: &'a str,
    pub nobackup: bool,
    pub dryrun: bool,
    pub incl: &'a [&'a str],
    pub excl: &'a [&'a str],
}

impl<'a> Default for Arg<'a> {
    fn default() -> (r: Self)
        ensures
            r.files@.len() == 0 && r.rev@.len() == 0 && !r.all && r.date@.len() == 0 && !r.nobackup && !r.dryrun && r.incl@.len() == 0 && r.excl@.len() == 0,
    {
        proof {
            reveal_strlit("");
        }
        Arg { files: &[], rev: &[], all: false, date: "", nobackup: false, dryrun: false, incl: &[], excl: &[] }
    }
}

impl<'a> Arg<'a> {
    /// The argument strings of this request.
    pub open spec fn spec_args(&self) -> Seq<Seq<char>> {
        seq!["revert"@] + self.rev.contributes("-r"@) + self.all.contributes("-a"@) + self.date.contributes("-d"@) + self.nobackup.contributes("--no-backup"@) + self.dryrun.contributes("-n"@) + self.incl.contributes("-I"@) + self.excl.contributes("-X"@) + guarded_positionals(self.files.deep_view())
    }

    /// Render the request's argument list.
    pub fn to_args(&self) -> (r: Vec<String>)
        ensures
            r.deep_view() == self.spec_args(),
    {
        let mut args = new_args("revert");
        self.rev.mk("-r", &mut args);
        self.all.mk("-a", &mut args);
        self.date.mk("-d", &mut args);
        self.nobackup.mk("--no-backup", &mut args);
        self.dryrun.mk("-n", &mut args);
        self.incl.mk("-I", &mut args);
        self.excl.mk("-X", &mut args);
        push_guarded_positionals(&mut args, self.files);
        args
    }

    /// Send the request and return the raw outcome.
    pub fn run<R: Runner>(&self, client: &mut R) -> Result<(Vec<u8>, i32), HglibError> {
        let args = self.to_args();
        let mut no_prompt: Option<NoPrompt> = None;
        client.runcommand(&args, &mut no_prompt)
    }
}

/// Run `revert` under the boolean convenience mapping: code 0 is true,
/// code 1 is a benign negative and gives false.
pub fn revert<R: Runner>(client: &mut R, x: Arg<'_>) -> (r: Result<bool, HglibError>) {
    HglibError::handle_err(x.run(client))
}

} // verus!

//! The `move` command: mark files as moved for the next commit.

use crate::builder::new_args;
use crate::builder::positional1;
use crate::builder::push_separator;
use crate::builder::separator;
use crate::builder::push_positional;
use crate::builder::MkArg;
use crate::client::HglibError;
use crate::client::NoPrompt;
use crate::client::Runner;
use vstd::prelude::*;

verus! {

/// Parameters of `move`.
pub struct Arg<'a> {
    pub source: &'a str,
    pub dest: &'a str,
    pub after: bool,
    pub force: bool,
    pub dryrun: bool,
    pub incl: &'a [&'a str],
    pub excl: &'a [&'a str],
}

impl<'a> Default for Arg<'a> {
    fn default() -> (r: Self)
        ensures
            r.source@.len() == 0 && r.dest@.len() == 0 && !r.after && !r.force && !r.dryrun && r.incl@.len() == 0 && r.excl@.len() == 0,
    {
        proof {
            reveal_strlit("");
        }
        Arg { source: "", dest: "", after: false, force: false, dryrun: false, incl: &[], excl: &[] }
    }
}

impl<'a> Arg<'a> {
    /// The argument strings of this request.
    pub open spec fn spec_args(&self) -> Seq<Seq<char>> {
        seq!["move"@] + self.after.contributes("-A"@) + self.force.contributes("-f"@) + self.dryrun.contributes("-n"@) + self.incl.contributes("-I"@) + self.excl.contributes("-X"@) + separator() + positional1(self.source@)
            + positional1(self.dest@)
    }

    /// Render the request's argument list.
    pub fn to_args(&self) -> (r: Vec<String>)
        ensures
            r.deep_view() == self.spec_args(),
    {
        let mut args = new_args("move");
        self.after.mk("-A", &mut args);
        self.force.mk("-f", &mut args);
        self.dryrun.mk("-n", &mut args);
        self.incl.mk("-I", &mut args);
        self.excl.mk("-X", &mut args);
        push_separator(&mut args);
        push_positional(&mut args, self.source);
        push_positional(&mut args, self.dest);
        args
    }

    /// Send the request and return the raw outcome.
    pub fn run<R: Runner>(&self, client: &mut R) -> Result<(Vec<u8>, i32), HglibError> {
        let args = self.to_args();
        let mut no_prompt: Option<NoPrompt> = None;
        client.runcommand(&args, &mut no_prompt)
    }
}

/// Run `move` under the boolean convenience mapping: code 0 is true,
/// code 1 is a benign negative and gives false.
pub fn mv<R: Runner>(client: &mut R, x: Arg<'_>) -> (r: Result<bool, HglibError>) {
    HglibError::handle_err(x.run(client))
}

} // verus!

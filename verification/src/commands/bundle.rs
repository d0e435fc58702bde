//! The `bundle` command: write a changegroup file for another repository.

use crate::builder::new_args;
use crate::builder::positional1;
use crate::builder::push_separator;
use crate::builder::separator;
use crate::builder::push_positional;
use crate::builder::MkArg;
use crate::client::HglibError;
use crate::client::NoPrompt;
use crate::client::Runner;
use vstd::prelude::*;

verus! {

/// Parameters of `bundle`.
pub struct Arg<'a> {
    pub file: &'a str,
    pub destrepo: &'a str,
    pub rev: &'a [&'a str],
    pub branch: &'a [&'a str],
    pub base: &'a [&'a str],
    pub all: bool,
    pub force: bool,
    pub typ: &'a str,
    pub ssh: &'a str,
    pub remotecmd: &'a str,
    pub insecure: bool,
}

impl<'a> Default for Arg<'a> {
    fn default() -> (r: Self)
        ensures
            r.file@.len() == 0 && r.destrepo@.len() == 0 && r.rev@.len() == 0 && r.branch@.len() == 0 && r.base@.len() == 0 && !r.all && !r.force && r.typ@.len() == 0 && r.ssh@.len() == 0 && r.remotecmd@.len() == 0 && !r.insecure,
    {
        proof {
            reveal_strlit("");
        }
        Arg { file: "", destrepo: "", rev: &[], branch: &[], base: &[], all: false, force: false, typ: "", ssh: "", remotecmd: "", insecure: false }
    }
}

impl<'a> Arg<'a> {
    /// The argument strings of this request.
    pub open spec fn spec_args(&self) -> Seq<Seq<char>> {
        seq!["bundle"@] + self.force.contributes("-f"@) + self.rev.contributes("-r"@) + self.branch.contributes("-b"@) + self.base.contributes("--base"@) + self.all.contributes("-a"@) + self.typ.contributes("-t"@) + self.ssh.contributes("-e"@) + self.remotecmd.contributes("--remotecmd"@) + self.insecure.contributes("-insecure"@) + separator() + positional1(self.file@)
            + positional1(self.destrepo@)
    }

    /// Render the request's argument list.
    pub fn to_args(&self) -> (r: Vec<String>)
        ensures
            r.deep_view() == self.spec_args(),
    {
        let mut args = new_args("bundle");
        self.force.mk("-f", &mut args);
        self.rev.mk("-r", &mut args);
        self.branch.mk("-b", &mut args);
        self.base.mk("--base", &mut args);
        self.all.mk("-a", &mut args);
        self.typ.mk("-t", &mut args);
        self.ssh.mk("-e", &mut args);
        self.remotecmd.mk("--remotecmd", &mut args);
        self.insecure.mk("-insecure", &mut args);
        push_separator(&mut args);
        push_positional(&mut args, self.file);
        push_positional(&mut args, self.destrepo);
        args
    }

    /// Send the request and return the raw outcome.
    pub fn run<R: Runner>(&self, client: &mut R) -> Result<(Vec<u8>, i32), HglibError> {
        let args = self.to_args();
        let mut no_prompt: Option<NoPrompt> = None;
        client.runcommand(&args, &mut no_prompt)
    }
}

/// Run `bundle` under the boolean convenience mapping: code 0 is true,
/// code 1 is a benign negative and gives false.
pub fn bundle<R: Runner>(client: &mut R, x: Arg<'_>) -> (r: Result<bool, HglibError>) {
    HglibError::handle_err(x.run(client))
}

} // verus!

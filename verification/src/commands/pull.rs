//! The `pull` command: bring changes from another repository into this one.

use crate::builder::new_args;
use crate::builder::positional1;
use crate::builder::push_separator;
use crate::builder::separator;
use crate::builder::push_positional;
use crate::builder::MkArg;
use crate::client::HglibError;
use crate::client::NoPrompt;
use crate::client::Runner;
use vstd::prelude::*;

verus! {

/// Parameters of `pull`.
pub struct Arg<'a> {
    pub source: &'a str,
    pub rev: &'a [&'a str],
    pub update: bool,
    pub force: bool,
    pub bookmark: &'a [&'a str],
    pub branch: &'a [&'a str],
    pub ssh: &'a str,
    pub remotecmd: &'a str,
    pub insecure: bool,
    pub tool: &'a str,
}

impl<'a> Default for Arg<'a> {
    fn default() -> (r: Self)
        ensures
            r.source@.len() == 0 && r.rev@.len() == 0 && !r.update && !r.force && r.bookmark@.len() == 0 && r.branch@.len() == 0 && r.ssh@.len() == 0 && r.remotecmd@.len() == 0 && !r.insecure && r.tool@.len() == 0,
    {
        proof {
            reveal_strlit("");
        }
        Arg { source: "", rev: &[], update: false, force: false, bookmark: &[], branch: &[], ssh: "", remotecmd: "", insecure: false, tool: "" }
    }
}

impl<'a> Arg<'a> {
    /// The argument strings of this request.
    pub open spec fn spec_args(&self) -> Seq<Seq<char>> {
        seq!["pull"@] + self.rev.contributes("-r"@) + self.update.contributes("-u"@) + self.force.contributes("-f"@) + self.bookmark.contributes("-B"@) + self.branch.contributes("-b"@) + self.ssh.contributes("-e"@) + self.remotecmd.contributes("--remotecmd"@) + self.insecure.contributes("--insecure"@) + self.tool.contributes("-t"@) + separator() + positional1(self.source@)
    }

    /// Render the request's argument list.
    pub fn to_args(&self) -> (r: Vec<String>)
        ensures
            r.deep_view() == self.spec_args(),
    {
        let mut args = new_args("pull");
        self.rev.mk("-r", &mut args);
        self.update.mk("-u", &mut args);
        self.force.mk("-f", &mut args);
        self.bookmark.mk("-B", &mut args);
        self.branch.mk("-b", &mut args);
        self.ssh.mk("-e", &mut args);
        self.remotecmd.mk("--remotecmd", &mut args);
        self.insecure.mk("--insecure", &mut args);
        self.tool.mk("-t", &mut args);
        push_separator(&mut args);
        push_positional(&mut args, self.source);
        args
    }

    /// Send the request and return the raw outcome.
    pub fn run<R: Runner>(&self, client: &mut R) -> Result<(Vec<u8>, i32), HglibError> {
        let args = self.to_args();
        let mut no_prompt: Option<NoPrompt> = None;
        client.runcommand(&args, &mut no_prompt)
    }
}

/// Run `pull` under the boolean convenience mapping: code 0 is true,
/// code 1 is a benign negative and gives false.
pub fn pull<R: Runner>(client: &mut R, x: Arg<'_>) -> (r: Result<bool, HglibError>) {
    HglibError::handle_err(x.run(client))
}

} // verus!

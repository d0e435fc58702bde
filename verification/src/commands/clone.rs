//! The `clone` command: copy a repository, local or remote, to a new place.

use crate::builder::new_args;
use crate::builder::positional1;
use crate::builder::push_separator;
use crate::builder::separator;
use crate::builder::push_positional;
use crate::builder::MkArg;
use crate::client::HglibError;
use crate::client::NoPrompt;
use crate::client::Runner;
use vstd::prelude::*;

verus! {

/// Parameters of `clone`.
pub struct Arg<'a> {
    pub source: &'a str,
    pub noupdate: bool,
    pub dest: &'a str,
    pub branch: &'a str,
    pub updaterev: &'a str,
    pub revrange: &'a str,
    pub pull: bool,
    pub stream: bool,
    pub ssh: &'a str,
    pub remotecmd: &'a str,
    pub insecure: bool,
}

impl<'a> Default for Arg<'a> {
    fn default() -> (r: Self)
        ensures
            r.source@ == "."@ && !r.noupdate && r.dest@.len() == 0 && r.branch@.len() == 0 && r.updaterev@.len() == 0 && r.revrange@.len() == 0 && !r.pull && !r.stream && r.ssh@.len() == 0 && r.remotecmd@.len() == 0 && !r.insecure,
    {
        proof {
            reveal_strlit("");
            reveal_strlit(".");
        }
        Arg { source: ".", noupdate: false, dest: "", branch: "", updaterev: "", revrange: "", pull: false, stream: false, ssh: "", remotecmd: "", insecure: false }
    }
}

impl<'a> Arg<'a> {
    /// The argument strings of this request.
    pub open spec fn spec_args(&self) -> Seq<Seq<char>> {
        seq!["clone"@] + self.noupdate.contributes("-U"@) + self.branch.contributes("-b"@) + self.updaterev.contributes("-u"@) + self.revrange.contributes("-r"@) + self.pull.contributes("--pull"@) + self.stream.contributes("--stream"@) + self.ssh.contributes("-e"@) + self.remotecmd.contributes("--remotecmd"@) + self.insecure.contributes("--insecure"@) + separator() + positional1(self.source@)
            + positional1(self.dest@)
    }

    /// Render the request's argument list.
    pub fn to_args(&self) -> (r: Vec<String>)
        ensures
            r.deep_view() == self.spec_args(),
    {
        let mut args = new_args("clone");
        self.noupdate.mk("-U", &mut args);
        self.branch.mk("-b", &mut args);
        self.updaterev.mk("-u", &mut args);
        self.revrange.mk("-r", &mut args);
        self.pull.mk("--pull", &mut args);
        self.stream.mk("--stream", &mut args);
        self.ssh.mk("-e", &mut args);
        self.remotecmd.mk("--remotecmd", &mut args);
        self.insecure.mk("--insecure", &mut args);
        push_separator(&mut args);
        push_positional(&mut args, self.source);
        push_positional(&mut args, self.dest);
        args
    }

    /// Send the request and return the raw outcome.
    pub fn run<R: Runner>(&self, client: &mut R) -> Result<(Vec<u8>, i32), HglibError> {
        let args = self.to_args();
        let mut no_prompt: Option<NoPrompt> = None;
        client.runcommand(&args, &mut no_prompt)
    }
}

/// Run `clone`.
pub fn clone<R: Runner>(client: &mut R, x: Arg<'_>) -> (r: Result<(), HglibError>) {
    x.run(client)?;
    Ok(())
}

} // verus!

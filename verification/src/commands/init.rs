//! The `init` command: create a fresh repository at a destination.

use crate::builder::new_args;
use crate::builder::positional1;
use crate::builder::push_separator;
use crate::builder::separator;
use crate::builder::push_positional;
use crate::builder::MkArg;
use crate::client::HglibError;
use crate::client::NoPrompt;
use crate::client::Runner;
use vstd::prelude::*;

verus! {

/// Parameters of `init`.
pub struct Arg<'a> {
    pub dest: &'a str,
    pub ssh: &'a str,
    pub remotecmd: &'a str,
    pub insecure: bool,
}

impl<'a> Default for Arg<'a> {
    fn default() -> (r: Self)
        ensures
            r.dest@.len() == 0 && r.ssh@.len() == 0 && r.remotecmd@.len() == 0 && !r.insecure,
    {
        proof {
            reveal_strlit("");
        }
        Arg { dest: "", ssh: "", remotecmd: "", insecure: false }
    }
}

impl<'a> Arg<'a> {
    /// The argument strings of this request.
    pub open spec fn spec_args(&self) -> Seq<Seq<char>> {
        seq!["init"@] + self.ssh.contributes("-e"@) + self.remotecmd.contributes("--remotecmd"@) + self.insecure.contributes("--insecure"@) + separator() + positional1(self.dest@)
    }

    /// Render the request's argument list.
    pub fn to_args(&self) -> (r: Vec<String>)
        ensures
            r.deep_view() == self.spec_args(),
    {
        let mut args = new_args("init");
        self.ssh.mk("-e", &mut args);
        self.remotecmd.mk("--remotecmd", &mut args);
        self.insecure.mk("--insecure", &mut args);
        push_separator(&mut args);
        push_positional(&mut args, self.dest);
        args
    }

    /// Send the request and return the raw outcome.
    pub fn run<R: Runner>(&self, client: &mut R) -> Result<(Vec<u8>, i32), HglibError> {
        let args = self.to_args();
        let mut no_prompt: Option<NoPrompt> = None;
        client.runcommand(&args, &mut no_prompt)
    }
}

/// Run `init`.
pub fn init<R: Runner>(client: &mut R, x: Arg<'_>) -> (r: Result<(), HglibError>) {
    x.run(client)?;
    Ok(())
}

} // verus!

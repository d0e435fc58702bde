//! The `backout` command: back out an earlier changeset with a new commit.

use crate::builder::new_args;
use crate::builder::positional1;
use crate::builder::push_separator;
use crate::builder::separator;
use crate::builder::push_positional;
use crate::builder::MkArg;
use crate::client::HglibError;
use crate::client::NoPrompt;
use crate::client::Runner;
use vstd::prelude::*;

verus! {

/// Parameters of `backout`.
pub struct Arg<'a> {
    pub rev: &'a str,
    pub merge: bool,
    pub parent: &'a str,
    pub tool: &'a str,
    pub message: &'a str,
    pub logfile: &'a str,
    pub date: &'a str,
    pub user: &'a str,
}

impl<'a> Default for Arg<'a> {
    fn default() -> (r: Self)
        ensures
            r.rev@.len() == 0 && !r.merge && r.parent@.len() == 0 && r.tool@.len() == 0 && r.message@.len() == 0 && r.logfile@.len() == 0 && r.date@.len() == 0 && r.user@.len() == 0,
    {
        proof {
            reveal_strlit("");
        }
        Arg { rev: "", merge: false, parent: "", tool: "", message: "", logfile: "", date: "", user: "" }
    }
}

impl<'a> Arg<'a> {
    /// The argument strings of this request.
    pub open spec fn spec_args(&self) -> Seq<Seq<char>> {
        seq!["backout"@] + self.merge.contributes("--merge"@) + self.parent.contributes("--parent"@) + self.tool.contributes("-t"@) + self.message.contributes("-m"@) + self.logfile.contributes("-l"@) + self.date.contributes("-d"@) + self.user.contributes("-u"@) + separator() + positional1(self.rev@)
    }

    /// Render the request's argument list.
    pub fn to_args(&self) -> (r: Vec<String>)
        ensures
            r.deep_view() == self.spec_args(),
    {
        let mut args = new_args("backout");
        self.merge.mk("--merge", &mut args);
        self.parent.mk("--parent", &mut args);
        self.tool.mk("-t", &mut args);
        self.message.mk("-m", &mut args);
        self.logfile.mk("-l", &mut args);
        self.date.mk("-d", &mut args);
        self.user.mk("-u", &mut args);
        push_separator(&mut args);
        push_positional(&mut args, self.rev);
        args
    }

    /// Send the request and return the raw outcome.
    pub fn run<R: Runner>(&self, client: &mut R) -> Result<(Vec<u8>, i32), HglibError> {
        let args = self.to_args();
        let mut no_prompt: Option<NoPrompt> = None;
        client.runcommand(&args, &mut no_prompt)
    }
}

/// Run `backout`.
pub fn backout<R: Runner>(client: &mut R, x: Arg<'_>) -> (r: Result<(), HglibError>) {
    x.run(client)?;
    Ok(())
}

} // verus!

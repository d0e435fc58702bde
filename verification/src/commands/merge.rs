//! The `merge` command: merge another revision into the working directory.

use crate::builder::new_args;
use crate::builder::MkArg;
use crate::client::HglibError;
use crate::client::NoPrompt;
use crate::client::Runner;
use vstd::prelude::*;

verus! {

/// Parameters of `merge`.
pub struct Arg<'a> {
    pub rev: &'a str,
    pub force: bool,
    pub tool: &'a str,
}

impl<'a> Default for Arg<'a> {
    fn default() -> (r: Self)
        ensures
            r.rev@.len() == 0 && !r.force && r.tool@.len() == 0,
    {
        proof {
            reveal_strlit("");
        }
        Arg { rev: "", force: false, tool: "" }
    }
}

impl<'a> Arg<'a> {
    /// The argument strings of this request.
    pub open spec fn spec_args(&self) -> Seq<Seq<char>> {
        seq!["merge"@] + self.rev.contributes("-r"@) + self.force.contributes("-f"@) + self.tool.contributes("-t"@) + true.contributes("-y"@) + crate::builder::separator()
    }

    /// Render the request's argument list.
    pub fn to_args(&self) -> (r: Vec<String>)
        ensures
            r.deep_view() == self.spec_args(),
    {
        let mut args = new_args("merge");
        self.rev.mk("-r", &mut args);
        self.force.mk("-f", &mut args);
        self.tool.mk("-t", &mut args);
        true.mk("-y", &mut args);
        crate::builder::push_separator(&mut args);
        args
    }

    /// Send the request and return the raw outcome.
    pub fn run<R: Runner>(&self, client: &mut R) -> Result<(Vec<u8>, i32), HglibError> {
        let args = self.to_args();
        let mut no_prompt: Option<NoPrompt> = None;
        client.runcommand(&args, &mut no_prompt)
    }
}

/// Run `merge`.
pub fn merge<R: Runner>(client: &mut R, x: Arg<'_>) -> (r: Result<(), HglibError>) {
    x.run(client)?;
    Ok(())
}

} // verus!

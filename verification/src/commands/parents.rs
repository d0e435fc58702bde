//! The `parents` command: list the parents of the working directory or
//! of a revision.

use crate::builder::new_args;
use crate::builder::positional1;
use crate::builder::push_separator;
use crate::builder::separator;
use crate::builder::push_positional;
use crate::builder::MkArg;
use crate::client::HglibError;
use crate::client::NoPrompt;
use crate::client::Runner;
use crate::commands::common;
use vstd::prelude::*;

verus! {

/// Parameters of `parents`.
pub struct Arg<'a> {
    pub rev: &'a str,
    pub file: &'a str,
}

impl<'a> Default for Arg<'a> {
    fn default() -> (r: Self)
        ensures
            r.rev@.len() == 0 && r.file@.len() == 0,
    {
        proof {
            reveal_strlit("");
        }
        Arg { rev: "", file: "" }
    }
}

impl<'a> Arg<'a> {
    /// The argument strings of this request.
    pub open spec fn spec_args(&self) -> Seq<Seq<char>> {
        seq!["parents"@] + self.rev.contributes("-r"@) + common::template_contrib() + separator() + positional1(
            self.file@,
        )
    }

    /// Render the request's argument list.
    pub fn to_args(&self) -> (r: Vec<String>)
        ensures
            r.deep_view() == self.spec_args(),
    {
        let mut args = new_args("parents");
        self.rev.mk("-r", &mut args);
        common::push_template(&mut args);
        push_separator(&mut args);
        push_positional(&mut args, self.file);
        args
    }

    /// Send the request and return the raw outcome.
    pub fn run<R: Runner>(&self, client: &mut R) -> Result<(Vec<u8>, i32), HglibError> {
        let args = self.to_args();
        let mut no_prompt: Option<NoPrompt> = None;
        client.runcommand(&args, &mut no_prompt)
    }
}

/// Run `parents`; no output means no parents.
pub fn parents<R: Runner>(client: &mut R, x: Arg<'_>) -> (r: Result<
    Vec<common::Revision>,
    HglibError,
>) {
    let (data, _) = x.run(client)?;
    if data.len() == 0 {
        Ok(Vec::new())
    } else {
        common::parserevs(data)
    }
}

} // verus!

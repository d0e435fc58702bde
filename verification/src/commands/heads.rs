//! The `heads` command: list the changesets with no children.

use crate::builder::new_args;
use crate::builder::guarded_positionals;
use crate::builder::push_guarded_positionals;
use crate::builder::MkArg;
use crate::client::HglibError;
use crate::client::NoPrompt;
use crate::client::Runner;
use crate::commands::common;
use vstd::prelude::*;

verus! {

/// Parameters of `heads`.
pub struct Arg<'a> {
    pub rev: &'a [&'a str],
    pub startrev: &'a [&'a str],
    pub topological: bool,
    pub closed: bool,
}

impl<'a> Default for Arg<'a> {
    fn default() -> (r: Self)
        ensures
            r.rev@.len() == 0 && r.startrev@.len() == 0 && !r.topological && !r.closed,
    {
        Arg { rev: &[], startrev: &[], topological: false, closed: false }
    }
}

impl<'a> Arg<'a> {
    /// The argument strings of this request.
    pub open spec fn spec_args(&self) -> Seq<Seq<char>> {
        seq!["heads"@] + self.startrev.contributes("-r"@) + self.topological.contributes("-t"@)
            + self.closed.contributes("-c"@) + common::template_contrib() + guarded_positionals(
            self.rev.deep_view(),
        )
    }

    /// Render the request's argument list.
    pub fn to_args(&self) -> (r: Vec<String>)
        ensures
            r.deep_view() == self.spec_args(),
    {
        let mut args = new_args("heads");
        self.startrev.mk("-r", &mut args);
        self.topological.mk("-t", &mut args);
        self.closed.mk("-c", &mut args);
        common::push_template(&mut args);
        push_guarded_positionals(&mut args, self.rev);
        args
    }

    /// Send the request and return the raw outcome.
    pub fn run<R: Runner>(&self, client: &mut R) -> Result<(Vec<u8>, i32), HglibError> {
        let args = self.to_args();
        let mut no_prompt: Option<NoPrompt> = None;
        client.runcommand(&args, &mut no_prompt)
    }
}

/// Run `heads`; an empty repository (result code 1) gives an empty
/// list.
pub fn heads<R: Runner>(client: &mut R, x: Arg<'_>) -> (r: Result<
    Vec<common::Revision>,
    HglibError,
>) {
    match x.run(client) {
        Ok((data, _)) => common::parserevs(data),
        Err(err) => {
            if err.code == 1 {
                Ok(Vec::new())
            } else {
                Err(err)
            }
        },
    }
}

} // verus!

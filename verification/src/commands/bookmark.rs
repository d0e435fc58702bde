//! The `bookmark` command: set, move or delete one bookmark.

use crate::builder::new_args;
use crate::builder::positional1;
use crate::builder::push_separator;
use crate::builder::separator;
use crate::builder::push_positional;
use crate::builder::MkArg;
use crate::client::HglibError;
use crate::client::NoPrompt;
use crate::client::Runner;
use vstd::prelude::*;

verus! {

/// Parameters of `bookmark`.
pub struct Arg<'a> {
    pub name: &'a str,
    pub rev: &'a str,
    pub force: bool,
    pub delete: bool,
    pub inactive: bool,
    pub rename: &'a str,
}

impl<'a> Default for Arg<'a> {
    fn default() -> (r: Self)
        ensures
            r.name@.len() == 0 && r.rev@.len() == 0 && !r.force && !r.delete && !r.inactive && r.rename@.len() == 0,
    {
        proof {
            reveal_strlit("");
        }
        Arg { name: "", rev: "", force: false, delete: false, inactive: false, rename: "" }
    }
}

impl<'a> Arg<'a> {
    /// The argument strings of this request.
    pub open spec fn spec_args(&self) -> Seq<Seq<char>> {
        seq!["bookmark"@] + self.rev.contributes("-r"@) + self.force.contributes("-f"@) + self.delete.contributes("-d"@) + self.inactive.contributes("-i"@) + self.rename.contributes("-m"@) + separator() + positional1(self.name@)
    }

    /// Render the request's argument list.
    pub fn to_args(&self) -> (r: Vec<String>)
        ensures
            r.deep_view() == self.spec_args(),
    {
        let mut args = new_args("bookmark");
        self.rev.mk("-r", &mut args);
        self.force.mk("-f", &mut args);
        self.delete.mk("-d", &mut args);
        self.inactive.mk("-i", &mut args);
        self.rename.mk("-m", &mut args);
        push_separator(&mut args);
        push_positional(&mut args, self.name);
        args
    }

    /// Send the request and return the raw outcome.
    pub fn run<R: Runner>(&self, client: &mut R) -> Result<(Vec<u8>, i32), HglibError> {
        let args = self.to_args();
        let mut no_prompt: Option<NoPrompt> = None;
        client.runcommand(&args, &mut no_prompt)
    }
}

/// Run `bookmark`.
pub fn bookmark<R: Runner>(client: &mut R, x: Arg<'_>) -> (r: Result<(), HglibError>) {
    x.run(client)?;
    Ok(())
}

} // verus!

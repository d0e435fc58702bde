//! The `forget` command: stop tracking files without removing them.

use crate::builder::new_args;
use crate::builder::push_guarded_positionals;
use crate::builder::guarded_positionals;
use crate::builder::MkArg;
use crate::client::HglibError;
use crate::client::NoPrompt;
use crate::client::Runner;
use vstd::prelude::*;

verus! {

/// Parameters of `forget`.
pub struct Arg<'a> {
    pub files: &'a [&'a str],
    pub incl: &'a [&'a str],
    pub excl: &'a [&'a str],
}

impl<'a> Default for Arg<'a> {
    fn default() -> (r: Self)
        ensures
            r.files@.len() == 0 && r.incl@.len() == 0 && r.excl@.len() == 0,
    {
        Arg { files: &[], incl: &[], excl: &[] }
    }
}

impl<'a> Arg<'a> {
    /// The argument strings of this request.
    pub open spec fn spec_args(&self) -> Seq<Seq<char>> {
        seq!["forget"@] + self.incl.contributes("-I"@) + self.excl.contributes("-X"@)
            + guarded_positionals(self.files.deep_view())
    }

    /// Render the request's argument list.
    pub fn to_args(&self) -> (r: Vec<String>)
        ensures
            r.deep_view() == self.spec_args(),
    {
        let mut args = new_args("forget");
        self.incl.mk("-I", &mut args);
        self.excl.mk("-X", &mut args);
        push_guarded_positionals(&mut args, self.files);
        args
    }

    /// Send the request and return the raw outcome.
    pub fn run<R: Runner>(&self, client: &mut R) -> Result<(Vec<u8>, i32), HglibError> {
        let args = self.to_args();
        let mut no_prompt: Option<NoPrompt> = None;
        client.runcommand(&args, &mut no_prompt)
    }
}

/// Run `forget` under the boolean convenience mapping: code 0 is true,
/// code 1 (some files were not tracked) is false.
pub fn forget<R: Runner>(client: &mut R, x: Arg<'_>) -> (r: Result<bool, HglibError>) {
    HglibError::handle_err(x.run(client))
}

} // verus!

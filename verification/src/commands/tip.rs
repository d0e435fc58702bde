//! The `tip` command: describe the most recently added changeset.

use crate::builder::new_args;
use crate::client::HglibError;
use crate::client::NoPrompt;
use crate::client::Runner;
use crate::commands::common;
use vstd::prelude::*;

verus! {

/// Parameters of `tip`: there are none.
pub struct Arg {}

impl Default for Arg {
    fn default() -> (r: Self) {
        Arg {  }
    }
}

impl Arg {
    /// The argument strings of this request.
    pub open spec fn spec_args(&self) -> Seq<Seq<char>> {
        seq!["tip"@] + common::template_contrib() + crate::builder::separator()
    }

    /// Render the request's argument list.
    pub fn to_args(&self) -> (r: Vec<String>)
        ensures
            r.deep_view() == self.spec_args(),
    {
        let mut args = new_args("tip");
        common::push_template(&mut args);
        crate::builder::push_separator(&mut args);
        args
    }

    /// Send the request and return the raw outcome.
    pub fn run<R: Runner>(&self, client: &mut R) -> Result<(Vec<u8>, i32), HglibError> {
        let args = self.to_args();
        let mut no_prompt: Option<NoPrompt> = None;
        client.runcommand(&args, &mut no_prompt)
    }
}

/// Run `tip` and return its single changeset.
pub fn tip<R: Runner>(client: &mut R, x: Arg) -> (r: Result<common::Revision, HglibError>) {
    let (data, _) = x.run(client)?;
    let mut revs = common::parserevs(data)?;
    match revs.pop() {
        Some(rev) => Ok(rev),
        None => Err(HglibError::from_str("no tip changeset in output")),
    }
}

} // verus!

//! The `identify` command: describe the working directory or a revision.

use crate::builder::new_args;
use crate::builder::positional1;
use crate::builder::push_separator;
use crate::builder::separator;
use crate::builder::push_positional;
use crate::builder::MkArg;
use crate::client::HglibError;
use crate::client::NoPrompt;
use crate::client::Runner;
use vstd::prelude::*;

verus! {

/// Parameters of `identify`.
pub struct Arg<'a> {
    pub rev: &'a str,
    pub source: &'a str,
    pub num: bool,
    pub id: bool,
    pub branch: bool,
    pub tags: bool,
    pub bookmarks: bool,
}

impl<'a> Default for Arg<'a> {
    fn default() -> (r: Self)
        ensures
            r.rev@.len() == 0 && r.source@.len() == 0 && !r.num && !r.id && !r.branch && !r.tags && !r.bookmarks,
    {
        proof {
            reveal_strlit("");
        }
        Arg { rev: "", source: "", num: false, id: false, branch: false, tags: false, bookmarks: false }
    }
}

impl<'a> Arg<'a> {
    /// The argument strings of this request.
    pub open spec fn spec_args(&self) -> Seq<Seq<char>> {
        seq!["identify"@] + self.rev.contributes("-r"@) + self.num.contributes("-n"@) + self.id.contributes("-i"@) + self.branch.contributes("-b"@) + self.tags.contributes("-t"@) + self.bookmarks.contributes("-B"@) + separator() + positional1(self.source@)
    }

    /// Render the request's argument list.
    pub fn to_args(&self) -> (r: Vec<String>)
        ensures
            r.deep_view() == self.spec_args(),
    {
        let mut args = new_args("identify");
        self.rev.mk("-r", &mut args);
        self.num.mk("-n", &mut args);
        self.id.mk("-i", &mut args);
        self.branch.mk("-b", &mut args);
        self.tags.mk("-t", &mut args);
        self.bookmarks.mk("-B", &mut args);
        push_separator(&mut args);
        push_positional(&mut args, self.source);
        args
    }

    /// Send the request and return the raw outcome.
    pub fn run<R: Runner>(&self, client: &mut R) -> Result<(Vec<u8>, i32), HglibError> {
        let args = self.to_args();
        let mut no_prompt: Option<NoPrompt> = None;
        client.runcommand(&args, &mut no_prompt)
    }
}

/// Run `identify` and return the raw output bytes.
pub fn identify<R: Runner>(client: &mut R, x: Arg<'_>) -> (r: Result<Vec<u8>, HglibError>) {
    let (data, _) = x.run(client)?;
    Ok(data)
}

} // verus!

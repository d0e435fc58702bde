//! The `tag` command: name one or more revisions.

use crate::builder::new_args;
use crate::builder::guarded_positionals;
use crate::builder::push_guarded_positionals;
use crate::builder::MkArg;
use crate::client::HglibError;
use crate::client::NoPrompt;
use crate::client::Runner;
use vstd::prelude::*;

verus! {

/// Parameters of `tag`.
pub struct Arg<'a> {
    pub names: &'a [&'a str],
    pub rev: &'a str,
    pub message: &'a str,
    pub local: bool,
    pub remove: bool,
    pub date: &'a str,
    pub user: &'a str,
}

impl<'a> Default for Arg<'a> {
    fn default() -> (r: Self)
        ensures
            r.names@.len() == 0 && r.rev@.len() == 0 && r.message@.len() == 0 && !r.local && !r.remove && r.date@.len() == 0 && r.user@.len() == 0,
    {
        proof {
            reveal_strlit("");
        }
        Arg { names: &[], rev: "", message: "", local: false, remove: false, date: "", user: "" }
    }
}

impl<'a> Arg<'a> {
    /// The argument strings of this request.
    pub open spec fn spec_args(&self) -> Seq<Seq<char>> {
        seq!["tag"@] + self.rev.contributes("-r"@) + self.message.contributes("-m"@) + self.local.contributes("-l"@) + self.remove.contributes("--remove"@) + self.date.contributes("-d"@) + self.user.contributes("-u"@) + guarded_positionals(self.names.deep_view())
    }

    /// Render the request's argument list.
    pub fn to_args(&self) -> (r: Vec<String>)
        ensures
            r.deep_view() == self.spec_args(),
    {
        let mut args = new_args("tag");
        self.rev.mk("-r", &mut args);
        self.message.mk("-m", &mut args);
        self.local.mk("-l", &mut args);
        self.remove.mk("--remove", &mut args);
        self.date.mk("-d", &mut args);
        self.user.mk("-u", &mut args);
        push_guarded_positionals(&mut args, self.names);
        args
    }

    /// Send the request and return the raw outcome.
    pub fn run<R: Runner>(&self, client: &mut R) -> Result<(Vec<u8>, i32), HglibError> {
        let args = self.to_args();
        let mut no_prompt: Option<NoPrompt> = None;
        client.runcommand(&args, &mut no_prompt)
    }
}

/// Run `tag`.
pub fn tag<R: Runner>(client: &mut R, x: Arg<'_>) -> (r: Result<(), HglibError>) {
    x.run(client)?;
    Ok(())
}

} // verus!

//! The `addremove` command: add new files and forget missing ones in
//! one pass.

use crate::builder::new_args;
use crate::builder::push_guarded_positionals;
use crate::builder::guarded_positionals;
use crate::builder::MkArg;
use crate::client::HglibError;
use crate::client::NoPrompt;
use crate::client::Runner;
use vstd::prelude::*;

verus! {

/// Parameters of `addremove`.  The similarity, when given, is a
/// percentage and must not exceed 100.
pub struct Arg<'a> {
    pub files: &'a [&'a str],
    pub similarity: Option<u32>,
    pub subrepos: bool,
    pub dryrun: bool,
    pub incl: &'a [&'a str],
    pub excl: &'a [&'a str],
}

impl<'a> Default for Arg<'a> {
    fn default() -> (r: Self)
        ensures
            r.files@.len() == 0 && r.similarity is None && !r.subrepos && !r.dryrun
                && r.incl@.len() == 0 && r.excl@.len() == 0,
    {
        Arg {
            files: &[],
            similarity: None,
            subrepos: false,
            dryrun: false,
            incl: &[],
            excl: &[],
        }
    }
}

impl<'a> Arg<'a> {
    /// The argument strings of this request.
    pub open spec fn spec_args(&self) -> Seq<Seq<char>> {
        seq!["addremove"@] + self.similarity.contributes("-s"@) + self.dryrun.contributes("-n"@)
            + self.subrepos.contributes("-S"@) + self.incl.contributes("-I"@)
            + self.excl.contributes("-X"@) + guarded_positionals(self.files.deep_view())
    }

    /// Render the request's argument list.
    pub fn to_args(&self) -> (r: Vec<String>)
        ensures
            r.deep_view() == self.spec_args(),
    {
        let mut args = new_args("addremove");
        self.similarity.mk("-s", &mut args);
        self.dryrun.mk("-n", &mut args);
        self.subrepos.mk("-S", &mut args);
        self.incl.mk("-I", &mut args);
        self.excl.mk("-X", &mut args);
        push_guarded_positionals(&mut args, self.files);
        args
    }

    /// Send the request and return the raw outcome; a similarity above
    /// 100 is rejected before anything is sent.
    pub fn run<R: Runner>(&self, client: &mut R) -> (r: Result<(Vec<u8>, i32), HglibError>)
        ensures
            (self.similarity matches Some(x) && x > 100) ==> (r matches Err(e) && e.code == -1
                && e.msg@ == "Invalid similarity"@),
    {
        if let Some(x) = self.similarity {
            if x > 100 {
                return Err(HglibError::from_str("Invalid similarity"));
            }
        }
        let args = self.to_args();
        let mut no_prompt: Option<NoPrompt> = None;
        client.runcommand(&args, &mut no_prompt)
    }
}

/// Run `addremove` under the boolean convenience mapping.
pub fn addremove<R: Runner>(client: &mut R, x: Arg<'_>) -> (r: Result<bool, HglibError>)
    ensures
        (x.similarity matches Some(s) && s > 100) ==> (r matches Err(e) && e.code == -1 && e.msg@
            == "Invalid similarity"@),
{
    HglibError::handle_err(x.run(client))
}

} // verus!

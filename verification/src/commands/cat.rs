//! The `cat` command: print the contents of files at a revision.

use crate::builder::new_args;
use crate::builder::guarded_positionals;
use crate::builder::push_guarded_positionals;
use crate::builder::MkArg;
use crate::client::HglibError;
use crate::client::NoPrompt;
use crate::client::Runner;
use vstd::prelude::*;

verus! {

/// Parameters of `cat`.
pub struct Arg<'a> {
    pub files: &'a [&'a str],
    pub rev: &'a [&'a str],
    pub decode: bool,
    pub output: &'a str,
    pub incl: &'a [&'a str],
    pub excl: &'a [&'a str],
}

impl<'a> Default for Arg<'a> {
    fn default() -> (r: Self)
        ensures
            r.files@.len() == 0 && r.rev@.len() == 0 && !r.decode && r.output@.len() == 0 && r.incl@.len() == 0 && r.excl@.len() == 0,
    {
        proof {
            reveal_strlit("");
        }
        Arg { files: &[], rev: &[], decode: false, output: "", incl: &[], excl: &[] }
    }
}

impl<'a> Arg<'a> {
    /// The argument strings of this request.
    pub open spec fn spec_args(&self) -> Seq<Seq<char>> {
        seq!["cat"@] + self.rev.contributes("-r"@) + self.output.contributes("-o"@) + self.incl.contributes("-I"@) + self.excl.contributes("-X"@) + guarded_positionals(self.files.deep_view())
    }

    /// Render the request's argument list.
    pub fn to_args(&self) -> (r: Vec<String>)
        ensures
            r.deep_view() == self.spec_args(),
    {
        let mut args = new_args("cat");
        self.rev.mk("-r", &mut args);
        self.output.mk("-o", &mut args);
        self.incl.mk("-I", &mut args);
        self.excl.mk("-X", &mut args);
        push_guarded_positionals(&mut args, self.files);
        args
    }

    /// Send the request and return the raw outcome.
    pub fn run<R: Runner>(&self, client: &mut R) -> Result<(Vec<u8>, i32), HglibError> {
        let args = self.to_args();
        let mut no_prompt: Option<NoPrompt> = None;
        client.runcommand(&args, &mut no_prompt)
    }
}

/// Run `cat`; the file contents come back only when no output file
/// was named.
pub fn cat<R: Runner>(client: &mut R, x: Arg<'_>) -> (r: Result<Option<Vec<u8>>, HglibError>)
    ensures
        x.output@.len() > 0 ==> (r matches Ok(v) ==> v is None),
{
    let (data, _) = x.run(client)?;
    if x.output.is_empty() {
        Ok(Some(data))
    } else {
        Ok(None)
    }
}

} // verus!

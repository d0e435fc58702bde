//! The `export` command: dump the header and diffs of revisions.

use crate::builder::new_args;
use crate::builder::guarded_positionals;
use crate::builder::push_guarded_positionals;
use crate::builder::MkArg;
use crate::client::HglibError;
use crate::client::NoPrompt;
use crate::client::Runner;
use vstd::prelude::*;

verus! {

/// Parameters of `export`.
pub struct Arg<'a> {
    pub revs: &'a [&'a str],
    pub output: &'a str,
    pub switchparent: bool,
    pub text: bool,
    pub git: bool,
    pub nodates: bool,
}

impl<'a> Default for Arg<'a> {
    fn default() -> (r: Self)
        ensures
            r.revs@.len() == 0 && r.output@.len() == 0 && !r.switchparent && !r.text && !r.git && !r.nodates,
    {
        proof {
            reveal_strlit("");
        }
        Arg { revs: &[], output: "", switchparent: false, text: false, git: false, nodates: false }
    }
}

impl<'a> Arg<'a> {
    /// The argument strings of this request.
    pub open spec fn spec_args(&self) -> Seq<Seq<char>> {
        seq!["export"@] + self.output.contributes("-o"@) + self.switchparent.contributes("--switch-parent"@) + self.text.contributes("-a"@) + self.git.contributes("-g"@) + self.nodates.contributes("--nodates"@) + guarded_positionals(self.revs.deep_view())
    }

    /// Render the request's argument list.
    pub fn to_args(&self) -> (r: Vec<String>)
        ensures
            r.deep_view() == self.spec_args(),
    {
        let mut args = new_args("export");
        self.output.mk("-o", &mut args);
        self.switchparent.mk("--switch-parent", &mut args);
        self.text.mk("-a", &mut args);
        self.git.mk("-g", &mut args);
        self.nodates.mk("--nodates", &mut args);
        push_guarded_positionals(&mut args, self.revs);
        args
    }

    /// Send the request and return the raw outcome.
    pub fn run<R: Runner>(&self, client: &mut R) -> Result<(Vec<u8>, i32), HglibError> {
        let args = self.to_args();
        let mut no_prompt: Option<NoPrompt> = None;
        client.runcommand(&args, &mut no_prompt)
    }
}

/// Run `export`; the patch text comes back only when no output file
/// was named, and nothing is sent at all otherwise.
pub fn export<R: Runner>(client: &mut R, x: Arg<'_>) -> (r: Result<Option<Vec<u8>>, HglibError>)
    ensures
        x.output@.len() > 0 ==> (r matches Ok(v) ==> v is None),
{
    if x.output.is_empty() {
        let (data, _) = x.run(client)?;
        Ok(Some(data))
    } else {
        Ok(None)
    }
}

} // verus!

//! The `diff` command: show differences between revisions or with the working directory.

use crate::builder::new_args;
use crate::builder::guarded_positionals;
use crate::builder::push_guarded_positionals;
use crate::builder::MkArg;
use crate::client::HglibError;
use crate::client::NoPrompt;
use crate::client::Runner;
use vstd::prelude::*;

verus! {

/// Parameters of `diff`.
pub struct Arg<'a> {
    pub files: &'a [&'a str],
    pub revs: &'a [&'a str],
    pub change: &'a str,
    pub text: bool,
    pub git: bool,
    pub nodates: bool,
    pub showfunction: bool,
    pub reverse: bool,
    pub ignoreallspace: bool,
    pub ignorespacechange: bool,
    pub ignoreblanklines: bool,
    pub unified: Option<u32>,
    pub stat: bool,
    pub subrepos: bool,
    pub incl: &'a [&'a str],
    pub excl: &'a [&'a str],
}

impl<'a> Default for Arg<'a> {
    fn default() -> (r: Self)
        ensures
            r.files@.len() == 0 && r.revs@.len() == 0 && r.change@.len() == 0 && !r.text && !r.git && !r.nodates && !r.showfunction && !r.reverse && !r.ignoreallspace && !r.ignorespacechange && !r.ignoreblanklines && r.unified is None && !r.stat && !r.subrepos && r.incl@.len() == 0 && r.excl@.len() == 0,
    {
        proof {
            reveal_strlit("");
        }
        Arg { files: &[], revs: &[], change: "", text: false, git: false, nodates: false, showfunction: false, reverse: false, ignoreallspace: false, ignorespacechange: false, ignoreblanklines: false, unified: None, stat: false, subrepos: false, incl: &[], excl: &[] }
    }
}

impl<'a> Arg<'a> {
    /// The argument strings of this request.
    pub open spec fn spec_args(&self) -> Seq<Seq<char>> {
        seq!["diff"@] + self.revs.contributes("-r"@) + self.change.contributes("-c"@) + self.text.contributes("-a"@) + self.git.contributes("-g"@) + self.nodates.contributes("--nodates"@) + self.showfunction.contributes("-p"@) + self.reverse.contributes("--reverse"@) + self.ignoreallspace.contributes("-w"@) + self.ignorespacechange.contributes("-b"@) + self.ignoreblanklines.contributes("-B"@) + self.unified.contributes("-U"@) + self.stat.contributes("--stat"@) + self.subrepos.contributes("-S"@) + self.incl.contributes("-I"@) + self.excl.contributes("-X"@) + guarded_positionals(self.files.deep_view())
    }

    /// Render the request's argument list.
    pub fn to_args(&self) -> (r: Vec<String>)
        ensures
            r.deep_view() == self.spec_args(),
    {
        let mut args = new_args("diff");
        self.revs.mk("-r", &mut args);
        self.change.mk("-c", &mut args);
        self.text.mk("-a", &mut args);
        self.git.mk("-g", &mut args);
        self.nodates.mk("--nodates", &mut args);
        self.showfunction.mk("-p", &mut args);
        self.reverse.mk("--reverse", &mut args);
        self.ignoreallspace.mk("-w", &mut args);
        self.ignorespacechange.mk("-b", &mut args);
        self.ignoreblanklines.mk("-B", &mut args);
        self.unified.mk("-U", &mut args);
        self.stat.mk("--stat", &mut args);
        self.subrepos.mk("-S", &mut args);
        self.incl.mk("-I", &mut args);
        self.excl.mk("-X", &mut args);
        push_guarded_positionals(&mut args, self.files);
        args
    }

    /// Send the request and return the raw outcome.
    pub fn run<R: Runner>(&self, client: &mut R) -> Result<(Vec<u8>, i32), HglibError> {
        let args = self.to_args();
        let mut no_prompt: Option<NoPrompt> = None;
        client.runcommand(&args, &mut no_prompt)
    }
}

/// Run `diff` and return the raw patch bytes.  Naming both a change
/// and a revision range is rejected before anything is sent.
pub fn diff<R: Runner>(client: &mut R, x: Arg<'_>) -> (r: Result<Vec<u8>, HglibError>)
    ensures
        (x.change@.len() > 0 && x.revs@.len() > 0) ==> (r matches Err(e) && e.code == -1 && e.msg@
            == "Cannot specify both change and rev"@),
{
    if !x.change.is_empty() && x.revs.len() > 0 {
        return Err(HglibError::from_str("Cannot specify both change and rev"));
    }
    let (data, _) = x.run(client)?;
    Ok(data)
}

} // verus!

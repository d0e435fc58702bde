//! The `archive` command: write an unversioned snapshot of a revision.

use crate::builder::new_args;
use crate::builder::push_positional;
use crate::builder::positional1;
use crate::builder::push_separator;
use crate::builder::separator;
use crate::builder::MkArg;
use crate::client::HglibError;
use crate::client::NoPrompt;
use crate::client::Runner;
use vstd::prelude::*;

verus! {

/// Parameters of `archive`.
pub struct Arg<'a> {
    pub dest: &'a str,
    pub rev: &'a str,
    pub nodecode: bool,
    pub prefix: &'a str,
    pub typ: &'a str,
    pub subrepos: bool,
    pub incl: &'a [&'a str],
    pub excl: &'a [&'a str],
}

impl<'a> Default for Arg<'a> {
    fn default() -> (r: Self)
        ensures
            r.dest@.len() == 0 && r.rev@.len() == 0 && !r.nodecode && r.prefix@.len() == 0
                && r.typ@.len() == 0 && !r.subrepos && r.incl@.len() == 0 && r.excl@.len()
                == 0,
    {
        proof {
            reveal_strlit("");
        }
        Arg {
            dest: "",
            rev: "",
            nodecode: false,
            prefix: "",
            typ: "",
            subrepos: false,
            incl: &[],
            excl: &[],
        }
    }
}

impl<'a> Arg<'a> {
    /// The argument strings of this request.
    pub open spec fn spec_args(&self) -> Seq<Seq<char>> {
        seq!["archive"@] + self.rev.contributes("-r"@) + self.nodecode.contributes("--no-decode"@)
            + self.prefix.contributes("-p"@) + self.typ.contributes("-t"@)
            + self.subrepos.contributes("-S"@) + self.incl.contributes("-I"@)
            + self.excl.contributes("-X"@) + separator() + positional1(self.dest@)
    }

    /// Render the request's argument list.
    pub fn to_args(&self) -> (r: Vec<String>)
        ensures
            r.deep_view() == self.spec_args(),
    {
        let mut args = new_args("archive");
        self.rev.mk("-r", &mut args);
        self.nodecode.mk("--no-decode", &mut args);
        self.prefix.mk("-p", &mut args);
        self.typ.mk("-t", &mut args);
        self.subrepos.mk("-S", &mut args);
        self.incl.mk("-I", &mut args);
        self.excl.mk("-X", &mut args);
        push_separator(&mut args);
        push_positional(&mut args, self.dest);
        args
    }

    /// Send the request and return the raw outcome.
    pub fn run<R: Runner>(&self, client: &mut R) -> Result<(Vec<u8>, i32), HglibError> {
        let args = self.to_args();
        let mut no_prompt: Option<NoPrompt> = None;
        client.runcommand(&args, &mut no_prompt)
    }
}

/// Run `archive`.
pub fn archive<R: Runner>(client: &mut R, x: Arg<'_>) -> (r: Result<(), HglibError>) {
    x.run(client)?;
    Ok(())
}

} // verus!

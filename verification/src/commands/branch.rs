//! The `branch` command: show the working directory's branch name, set
//! a new one, or reset to the default.

use crate::builder::positional1;
use crate::builder::new_args;
use crate::builder::push_positional;
use crate::builder::MkArg;
use crate::client::HglibError;
use crate::client::NoPrompt;
use crate::client::Runner;
use crate::scan::utf8_to_string;
use vstd::prelude::*;
use vstd::slice::slice_subrange;
use vstd::slice::slice_to_vec;
use vstd::string::StringExecFns;
use vstd::utf8::encode_utf8;
use vstd::utf8::valid_utf8;

verus! {

/// Parameters of `branch`: a name to set, or `clean` to reset; with
/// neither, the current branch name is returned.
pub struct Arg<'a> {
    pub name: &'a str,
    pub clean: bool,
    pub force: bool,
}

impl<'a> Default for Arg<'a> {
    fn default() -> (r: Self)
        ensures
            r.name@.len() == 0,
            !r.clean,
            !r.force,
    {
        proof {
            reveal_strlit("");
        }
        Arg { name: "", clean: false, force: false }
    }
}

impl<'a> Arg<'a> {
    /// The argument strings of this request.
    pub open spec fn spec_args(&self) -> Seq<Seq<char>> {
        seq!["branch"@] + self.clean.contributes("-C"@) + self.force.contributes("-f"@)
            + positional1(self.name@)
    }

    /// Render the request's argument list.
    pub fn to_args(&self) -> (r: Vec<String>)
        ensures
            r.deep_view() == self.spec_args(),
    {
        let mut args = new_args("branch");
        self.clean.mk("-C", &mut args);
        self.force.mk("-f", &mut args);
        push_positional(&mut args, self.name);
        args
    }

    /// Send the request and return the raw outcome.
    pub fn run<R: Runner>(&self, client: &mut R) -> Result<(Vec<u8>, i32), HglibError> {
        let args = self.to_args();
        let mut no_prompt: Option<NoPrompt> = None;
        client.runcommand(&args, &mut no_prompt)
    }
}

/// The branch name carried by the server's output: the trimmed output,
/// or what is left of it after the reset notice when `clean` was
/// asked.
pub open spec fn spec_branch_value(clean: bool, data: Seq<u8>) -> Seq<u8> {
    if clean {
        crate::scan::spec_trim_end(data, true).skip(reset_notice().len() as int)
    } else {
        crate::scan::spec_trim_end(data, true)
    }
}

/// The notice printed before the branch name when the working
/// directory is reset.
pub open spec fn reset_notice() -> Seq<u8> {
    encode_utf8("reset working directory to branch "@)
}

/// Parse the server's output into the branch name.
pub fn parse(clean: bool, data: &Vec<u8>) -> (r: Result<String, HglibError>)
    ensures
        r is Ok <==> (spec_branch_value(clean, data@).len() <= crate::scan::spec_trim_end(data@, true).len()
            && (clean ==> crate::scan::spec_trim_end(data@, true).len() >= reset_notice().len()) && valid_utf8(
            spec_branch_value(clean, data@),
        )),
        r matches Ok(v) ==> encode_utf8(v@) == spec_branch_value(clean, data@),
{
    let trimmed = crate::scan::trim_end(data.as_slice(), true);
    let value = if clean {
        let notice = "reset working directory to branch ".as_bytes();
        if trimmed.len() < notice.len() {
            return Err(HglibError::from_str("branch output shorter than the reset notice"));
        }
        slice_subrange(trimmed, notice.len(), trimmed.len())
    } else {
        trimmed
    };
    proof {
        assert(value@ =~= spec_branch_value(clean, data@));
    }
    let owned = slice_to_vec(value);
    match utf8_to_string(&owned) {
        Some(s) => Ok(s),
        None => Err(HglibError::from_str("invalid utf-8 in branch name")),
    }
}

/// Run `branch`.  Setting a name and asking for a reset at once is
/// rejected; setting a name returns that name; otherwise the server's
/// output gives the name.
pub fn branch<R: Runner>(client: &mut R, x: Arg<'_>) -> (r: Result<String, HglibError>)
    ensures
        x.name@.len() > 0 && x.clean ==> (r matches Err(e) && e.code == -1 && e.msg@
            == "Cannot use both name and clean"@),
        x.name@.len() > 0 && !x.clean ==> (r matches Ok(v) ==> v@ == x.name@),
{
    if !x.name.is_empty() && x.clean {
        return Err(HglibError::from_str("Cannot use both name and clean"));
    }
    let (data, _code) = x.run(client)?;
    if !x.name.is_empty() {
        Ok(String::from_str(x.name))
    } else {
        parse(x.clean, &data)
    }
}

} // verus!

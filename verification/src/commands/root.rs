//! The `root` command: print the root directory of the repository.

use crate::builder::new_args;
use crate::client::HglibError;
use crate::client::NoPrompt;
use crate::client::Runner;
use crate::scan::spec_trim_end;
use crate::scan::trim_end;
use crate::scan::utf8_to_string;
use vstd::prelude::*;
use vstd::slice::slice_to_vec;
use vstd::utf8::encode_utf8;
use vstd::utf8::valid_utf8;

verus! {

/// Parameters of `root`: there are none.
pub struct Arg {}

impl Default for Arg {
    fn default() -> (r: Self) {
        Arg {  }
    }
}

impl Arg {
    /// The argument strings of this request.
    pub open spec fn spec_args(&self) -> Seq<Seq<char>> {
        seq!["root"@] + crate::builder::separator()
    }

    /// Render the request's argument list.
    pub fn to_args(&self) -> (r: Vec<String>)
        ensures
            r.deep_view() == self.spec_args(),
    {
        let mut args = new_args("root");
        crate::builder::push_separator(&mut args);
        args
    }

    /// Send the request and return the raw outcome.
    pub fn run<R: Runner>(&self, client: &mut R) -> Result<(Vec<u8>, i32), HglibError> {
        let args = self.to_args();
        let mut no_prompt: Option<NoPrompt> = None;
        client.runcommand(&args, &mut no_prompt)
    }
}

/// Parse the server's output: the path with trailing whitespace
/// removed.
pub fn parse(data: &Vec<u8>) -> (r: Result<String, HglibError>)
    ensures
        r is Ok <==> valid_utf8(spec_trim_end(data@, false)),
        r matches Ok(v) ==> encode_utf8(v@) == spec_trim_end(data@, false),
{
    let trimmed = trim_end(data.as_slice(), false);
    let owned = slice_to_vec(trimmed);
    match utf8_to_string(&owned) {
        Some(s) => Ok(s),
        None => Err(HglibError::from_str("invalid utf-8 in repository root")),
    }
}

/// Run `root` and return the repository's root path.
pub fn root<R: Runner>(client: &mut R, x: Arg) -> (r: Result<String, HglibError>) {
    let (data, _) = x.run(client)?;
    parse(&data)
}

} // verus!

//! The `manifest` command: list the files of a revision, or every file
//! the repository has ever tracked.

use crate::builder::new_args;
use crate::builder::MkArg;
use crate::client::HglibError;
use crate::client::NoPrompt;
use crate::client::Runner;
use crate::scan::utf8_to_string;
use vstd::prelude::*;
use vstd::slice::slice_subrange;
use vstd::slice::slice_to_vec;

verus! {

/// Parameters of `manifest`.
pub struct Arg<'a> {
    pub rev: &'a str,
    pub all: bool,
}

impl<'a> Default for Arg<'a> {
    fn default() -> (r: Self)
        ensures
            r.rev@.len() == 0 && !r.all,
    {
        proof {
            reveal_strlit("");
        }
        Arg { rev: "", all: false }
    }
}

impl<'a> Arg<'a> {
    /// The argument strings of this request.
    pub open spec fn spec_args(&self) -> Seq<Seq<char>> {
        seq!["manifest"@] + self.rev.contributes("-r"@) + self.all.contributes("--all"@)
            + true.contributes("--debug"@) + crate::builder::separator()
    }

    /// Render the request's argument list.
    pub fn to_args(&self) -> (r: Vec<String>)
        ensures
            r.deep_view() == self.spec_args(),
    {
        let mut args = new_args("manifest");
        self.rev.mk("-r", &mut args);
        self.all.mk("--all", &mut args);
        true.mk("--debug", &mut args);
        crate::builder::push_separator(&mut args);
        args
    }

    /// Send the request and return the raw outcome.
    pub fn run<R: Runner>(&self, client: &mut R) -> Result<(Vec<u8>, i32), HglibError> {
        let args = self.to_args();
        let mut no_prompt: Option<NoPrompt> = None;
        client.runcommand(&args, &mut no_prompt)
    }
}

/// One manifest entry of the debug listing: fixed columns holding the
/// node, the permission bits, a symlink or executable mark, and the
/// file name.
#[derive(Debug, PartialEq)]
pub struct File {
    pub node: String,
    pub perm: String,
    pub symlink: bool,
    pub executable: bool,
    pub filename: String,
}

/// What `manifest` lists: bare file names under `--all`, full entries
/// otherwise.
#[derive(Debug, PartialEq)]
pub enum Manifest {
    All(Vec<String>),
    Info(Vec<File>),
}

/// Parse the bare file-name listing.
pub fn parse_all(data: &Vec<u8>) -> (r: Result<Vec<String>, HglibError>) {
    let lines = crate::scan::tokens(data.as_slice(), 10);
    let mut res: Vec<String> = Vec::new();
    let mut i: usize = 0;
    while i < lines.len()
        decreases lines@.len() - i,
    {
        match utf8_to_string(&lines[i]) {
            Some(s) => res.push(s),
            None => {
                return Err(HglibError::from_str("invalid utf-8 in manifest"));
            },
        }
        i = i + 1;
    }
    Ok(res)
}

/// Parse the debug listing: each line is a 40-byte node, a space, the
/// three permission digits, a mark column, and the file name from
/// column 47 on.
pub fn parse_info(data: &Vec<u8>) -> (r: Result<Vec<File>, HglibError>) {
    let lines = crate::scan::tokens(data.as_slice(), 10);
    let mut res: Vec<File> = Vec::new();
    let mut i: usize = 0;
    while i < lines.len()
        decreases lines@.len() - i,
    {
        let line = &lines[i];
        if line.len() < 48 {
            return Err(HglibError::from_str("invalid length for manifest line"));
        }
        let node_bytes = slice_to_vec(slice_subrange(line.as_slice(), 0, 40));
        let perm_bytes = slice_to_vec(slice_subrange(line.as_slice(), 41, 44));
        let name_bytes = slice_to_vec(slice_subrange(line.as_slice(), 47, line.len()));
        let node = match utf8_to_string(&node_bytes) {
            Some(s) => s,
            None => {
                return Err(HglibError::from_str("invalid utf-8 in manifest node"));
            },
        };
        let perm = match utf8_to_string(&perm_bytes) {
            Some(s) => s,
            None => {
                return Err(HglibError::from_str("invalid utf-8 in manifest permissions"));
            },
        };
        let filename = match utf8_to_string(&name_bytes) {
            Some(s) => s,
            None => {
                return Err(HglibError::from_str("invalid utf-8 in manifest file name"));
            },
        };
        let mark = line[45];
        res.push(
            File { node, perm, symlink: mark == 64, executable: mark == 42, filename },
        );
        i = i + 1;
    }
    Ok(res)
}

/// Run `manifest`.
pub fn manifest<R: Runner>(client: &mut R, x: Arg<'_>) -> (r: Result<Manifest, HglibError>)
    ensures
        (x.all && r is Ok) ==> r->Ok_0 is All,
        (!x.all && r is Ok) ==> r->Ok_0 is Info,
{
    let all = x.all;
    let (data, _) = x.run(client)?;
    if all {
        match parse_all(&data) {
            Ok(v) => Ok(Manifest::All(v)),
            Err(e) => Err(e),
        }
    } else {
        match parse_info(&data) {
            Ok(v) => Ok(Manifest::Info(v)),
            Err(e) => Err(e),
        }
    }
}

} // verus!

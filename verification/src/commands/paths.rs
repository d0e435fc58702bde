//! The `paths` command: show the named remote path aliases, or the
//! value of one of them.

use crate::builder::new_args;
use crate::builder::positional1;
use crate::builder::push_separator;
use crate::builder::separator;
use crate::builder::push_positional;
use crate::builder::MkArg;
use crate::client::HglibError;
use crate::client::NoPrompt;
use crate::client::Runner;
use crate::scan::spec_trim_end;
use crate::scan::trim_end;
use crate::scan::utf8_to_string;
use std::collections::HashMap;
use vstd::prelude::*;
use vstd::slice::slice_subrange;
use vstd::slice::slice_to_vec;
use vstd::utf8::encode_utf8;
use vstd::utf8::valid_utf8;

verus! {

/// Parameters of `paths`.
pub struct Arg<'a> {
    pub name: &'a str,
}

impl<'a> Default for Arg<'a> {
    fn default() -> (r: Self)
        ensures
            r.name@.len() == 0,
    {
        proof {
            reveal_strlit("");
        }
        Arg { name: "" }
    }
}

impl<'a> Arg<'a> {
    /// The argument strings of this request.
    pub open spec fn spec_args(&self) -> Seq<Seq<char>> {
        seq!["paths"@] + separator() + positional1(self.name@)
    }

    /// Render the request's argument list.
    pub fn to_args(&self) -> (r: Vec<String>)
        ensures
            r.deep_view() == self.spec_args(),
    {
        let mut args = new_args("paths");
        push_separator(&mut args);
        push_positional(&mut args, self.name);
        args
    }

    /// Send the request and return the raw outcome.
    pub fn run<R: Runner>(&self, client: &mut R) -> Result<(Vec<u8>, i32), HglibError> {
        let args = self.to_args();
        let mut no_prompt: Option<NoPrompt> = None;
        client.runcommand(&args, &mut no_prompt)
    }
}

/// The result of `paths`: every alias with its target, or the value of
/// the one alias that was asked for.
#[derive(Debug)]
pub enum Paths {
    Aliases(HashMap<String, String>),
    Value(String),
}

/// Parse the whole alias listing: each line reads `alias = target`.
pub fn parse_map(data: &Vec<u8>) -> (r: Result<HashMap<String, String>, HglibError>) {
    let lines = crate::scan::split_bytes(data.as_slice(), 10);
    let mut map: HashMap<String, String> = HashMap::new();
    let mut i: usize = 0;
    while i < lines.len()
        decreases lines@.len() - i,
    {
        let line = &lines[i];
        let sp = crate::scan::find_byte(line.as_slice(), 32, 0);
        proof {
            crate::scan::lemma_find(line@, 32, 0);
        }
        if line.len() - sp >= 3 && line[sp + 1] == 61 && line[sp + 2] == 32 {
            let key_bytes = slice_to_vec(slice_subrange(line.as_slice(), 0, sp));
            let val_bytes = slice_to_vec(slice_subrange(line.as_slice(), sp + 3, line.len()));
            let key = match utf8_to_string(&key_bytes) {
                Some(s) => s,
                None => {
                    return Err(HglibError::from_str("invalid utf-8 in path alias"));
                },
            };
            let val = match utf8_to_string(&val_bytes) {
                Some(s) => s,
                None => {
                    return Err(HglibError::from_str("invalid utf-8 in path value"));
                },
            };
            map.insert(key, val);
        }
        i = i + 1;
    }
    Ok(map)
}

/// Parse the value of one alias: the output with trailing spaces and
/// newlines removed.
pub fn parse_value(data: &Vec<u8>) -> (r: Result<String, HglibError>)
    ensures
        r is Ok <==> valid_utf8(spec_trim_end(data@, false)),
        r matches Ok(v) ==> encode_utf8(v@) == spec_trim_end(data@, false),
{
    let trimmed = trim_end(data.as_slice(), false);
    let owned = slice_to_vec(trimmed);
    match utf8_to_string(&owned) {
        Some(s) => Ok(s),
        None => Err(HglibError::from_str("invalid utf-8 in path value")),
    }
}

/// Run `paths`: the whole alias map, or one alias's value when a name
/// was given.
pub fn paths<R: Runner>(client: &mut R, x: Arg<'_>) -> (r: Result<Paths, HglibError>)
    ensures
        (x.name@.len() > 0 && r is Ok) ==> r->Ok_0 is Value,
        (x.name@.len() == 0 && r is Ok) ==> r->Ok_0 is Aliases,
{
    let by_name = !x.name.is_empty();
    let (data, _) = x.run(client)?;
    if by_name {
        match parse_value(&data) {
            Ok(v) => Ok(Paths::Value(v)),
            Err(e) => Err(e),
        }
    } else {
        match parse_map(&data) {
            Ok(m) => Ok(Paths::Aliases(m)),
            Err(e) => Err(e),
        }
    }
}

} // verus!

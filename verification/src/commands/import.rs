//! The `import` command: apply patches from files, or feed one patch
//! text through the server's input channel.

use crate::builder::new_args;
use crate::builder::guarded_positionals;
use crate::builder::positional1;
use crate::builder::push_positional;
use crate::builder::push_guarded_positionals;
use crate::builder::MkArg;
use crate::client::HglibError;
use crate::client::NoPrompt;
use crate::client::Prompt;
use crate::client::Runner;
use crate::scan::spec_find;
use vstd::prelude::*;
use vstd::slice::slice_subrange;
use vstd::slice::slice_to_vec;
use vstd::string::StrSliceExecFns;
use vstd::string::StringSliceAdditionalSpecFns;

verus! {

/// Parameters of `import`.
pub struct Arg<'a> {
    pub patches: &'a [&'a str],
    pub strip: Option<u32>,
    pub force: bool,
    pub nocommit: bool,
    pub bypass: bool,
    pub exact: bool,
    pub importbranch: bool,
    pub message: &'a str,
    pub date: &'a str,
    pub user: &'a str,
    pub similarity: Option<u8>,
}

impl<'a> Default for Arg<'a> {
    fn default() -> (r: Self)
        ensures
            r.patches@.len() == 0 && r.strip is None && !r.force && !r.nocommit && !r.bypass
                && !r.exact && !r.importbranch && r.message@.len() == 0 && r.date@.len() == 0
                && r.user@.len() == 0 && r.similarity is None,
    {
        proof {
            reveal_strlit("");
        }
        Arg {
            patches: &[],
            strip: None,
            force: false,
            nocommit: false,
            bypass: false,
            exact: false,
            importbranch: false,
            message: "",
            date: "",
            user: "",
            similarity: None,
        }
    }
}

/// A prompt that feeds one patch text to the server chunk by chunk,
/// as much per request as the server will take.
pub struct ImportPrompt {
    pub patch: Vec<u8>,
    pub pos: usize,
}

impl ImportPrompt {
    /// A prompt over one patch text, nothing served yet.
    pub fn new(patch: &str) -> (r: ImportPrompt)
        ensures
            r.patch@ == vstd::utf8::encode_utf8(patch@),
            r.pos == 0,
    {
        ImportPrompt { patch: patch.as_bytes_vec(), pos: 0 }
    }
}

impl Prompt for ImportPrompt {
    fn call(&mut self, size: usize) -> (r: Vec<u8>) {
        if self.pos < self.patch.len() {
            let end = if self.patch.len() - self.pos < size {
                self.patch.len()
            } else {
                self.pos + size
            };
            let chunk = slice_to_vec(slice_subrange(self.patch.as_slice(), self.pos, end));
            self.pos = end;
            chunk
        } else {
            Vec::new()
        }
    }
}

impl<'a> Arg<'a> {
    /// The argument strings of this request up to and including the
    /// options.
    pub open spec fn spec_options(&self) -> Seq<Seq<char>> {
        seq!["import"@] + self.strip.contributes("--strip"@) + self.force.contributes("--force"@)
            + self.nocommit.contributes("--no-commit"@) + self.bypass.contributes("--bypass"@)
            + self.exact.contributes("--exact"@) + self.importbranch.contributes(
            "--import-branch"@,
        ) + self.message.contributes("--message"@) + self.date.contributes("--date"@)
            + self.user.contributes("--user"@) + self.similarity.contributes("--similarity"@)
    }

    /// The argument list up to and including the options.
    fn options_args(&self) -> (r: Vec<String>)
        ensures
            r.deep_view() == self.spec_options(),
    {
        let mut args = new_args("import");
        self.strip.mk("--strip", &mut args);
        self.force.mk("--force", &mut args);
        self.nocommit.mk("--no-commit", &mut args);
        self.bypass.mk("--bypass", &mut args);
        self.exact.mk("--exact", &mut args);
        self.importbranch.mk("--import-branch", &mut args);
        self.message.mk("--message", &mut args);
        self.date.mk("--date", &mut args);
        self.user.mk("--user", &mut args);
        self.similarity.mk("--similarity", &mut args);
        args
    }

    /// Whether the patch goes through the input channel: a single
    /// patch that holds a newline is patch text, not a file name.
    pub open spec fn spec_inline(&self) -> bool {
        &&& self.patches@.len() == 1
        &&& spec_find(self.patches@[0].spec_bytes(), 10, 0) < self.patches@[0].spec_bytes().len()
    }

    /// Decide whether the patch is inline text.
    pub fn uses_input_channel(&self) -> (r: bool)
        ensures
            r == self.spec_inline(),
    {
        if self.patches.len() == 1 {
            let bytes = self.patches[0].as_bytes();
            crate::scan::find_byte(bytes, 10, 0) < bytes.len()
        } else {
            false
        }
    }

    /// The argument strings of this request: the options, then either
    /// the `-` placeholder for an inline patch or the separator-guarded
    /// patch paths.
    pub open spec fn spec_args(&self, inline: bool) -> Seq<Seq<char>> {
        self.spec_options() + (if inline {
            positional1("-"@)
        } else {
            guarded_positionals(self.patches.deep_view())
        })
    }

    /// Render the request's argument list for the chosen form.
    pub fn to_args(&self, inline: bool) -> (r: Vec<String>)
        ensures
            r.deep_view() == self.spec_args(inline),
    {
        let mut args = self.options_args();
        if inline {
            push_positional(&mut args, "-");
        } else {
            push_guarded_positionals(&mut args, self.patches);
        }
        args
    }

    /// Send the request.  An inline patch is fed through the input
    /// channel by an [`ImportPrompt`] while the positional argument is
    /// `-`; file paths go as ordinary positionals with no prompt.
    pub fn run<R: Runner>(&self, client: &mut R) -> Result<(Vec<u8>, i32), HglibError> {
        let inline_patch = self.uses_input_channel();
        let args = self.to_args(inline_patch);
        if inline_patch {
            let mut prompt: Option<ImportPrompt> = Some(ImportPrompt::new(self.patches[0]));
            client.runcommand(&args, &mut prompt)
        } else {
            let mut no_prompt: Option<NoPrompt> = None;
            client.runcommand(&args, &mut no_prompt)
        }
    }
}

/// Run `import` and return the raw output bytes.
pub fn import<R: Runner>(client: &mut R, x: Arg<'_>) -> (r: Result<Vec<u8>, HglibError>) {
    let (data, _) = x.run(client)?;
    Ok(data)
}

} // verus!

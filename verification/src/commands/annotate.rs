//! The `annotate` command: show per-line origin information for files,
//! with a cursor over the returned lines.

use crate::builder::new_args;
use crate::builder::guarded_positionals;
use crate::builder::push_guarded_positionals;
use crate::builder::MkArg;
use crate::client::HglibError;
use crate::client::NoPrompt;
use crate::client::Runner;
use crate::scan::utf8_to_string;
use vstd::prelude::*;
use vstd::slice::slice_subrange;
use vstd::slice::slice_to_vec;

verus! {

/// Parameters of `annotate`.
pub struct Arg<'a> {
    pub files: &'a [&'a str],
    pub revrange: &'a str,
    pub nofollow: bool,
    pub text: bool,
    pub user: bool,
    pub file: bool,
    pub date: bool,
    pub number: bool,
    pub changeset: bool,
    pub line: bool,
    pub verbose: bool,
    pub incl: &'a [&'a str],
    pub excl: &'a [&'a str],
}

impl<'a> Default for Arg<'a> {
    fn default() -> (r: Self)
        ensures
            r.files@.len() == 0 && r.revrange@.len() == 0 && !r.nofollow && !r.text && !r.user
                && !r.file && !r.date && !r.number && !r.changeset && !r.line && !r.verbose
                && r.incl@.len() == 0 && r.excl@.len() == 0,
    {
        proof {
            reveal_strlit("");
        }
        Arg {
            files: &[],
            revrange: "",
            nofollow: false,
            text: false,
            user: false,
            file: false,
            date: false,
            number: false,
            changeset: false,
            line: false,
            verbose: false,
            incl: &[],
            excl: &[],
        }
    }
}

impl<'a> Arg<'a> {
    /// The argument strings of this request.
    pub open spec fn spec_args(&self) -> Seq<Seq<char>> {
        seq!["annotate"@] + self.revrange.contributes("-r"@) + self.nofollow.contributes(
            "--no-follow"@,
        ) + self.text.contributes("-a"@) + self.user.contributes("-u"@) + self.file.contributes(
            "-f"@,
        ) + self.date.contributes("-d"@) + self.number.contributes("-n"@)
            + self.changeset.contributes("-c"@) + self.line.contributes("-l"@)
            + self.verbose.contributes("-v"@) + self.incl.contributes("-I"@)
            + self.excl.contributes("-X"@) + guarded_positionals(self.files.deep_view())
    }

    /// Render the request's argument list.
    pub fn to_args(&self) -> (r: Vec<String>)
        ensures
            r.deep_view() == self.spec_args(),
    {
        let mut args = new_args("annotate");
        self.revrange.mk("-r", &mut args);
        self.nofollow.mk("--no-follow", &mut args);
        self.text.mk("-a", &mut args);
        self.user.mk("-u", &mut args);
        self.file.mk("-f", &mut args);
        self.date.mk("-d", &mut args);
        self.number.mk("-n", &mut args);
        self.changeset.mk("-c", &mut args);
        self.line.mk("-l", &mut args);
        self.verbose.mk("-v", &mut args);
        self.incl.mk("-I", &mut args);
        self.excl.mk("-X", &mut args);
        push_guarded_positionals(&mut args, self.files);
        args
    }

    /// Send the request and return the raw outcome.
    pub fn run<R: Runner>(&self, client: &mut R) -> Result<(Vec<u8>, i32), HglibError> {
        let args = self.to_args();
        let mut no_prompt: Option<NoPrompt> = None;
        client.runcommand(&args, &mut no_prompt)
    }
}

/// One annotated line: the origin information before the first
/// `: ` and the line's content.
#[derive(Debug, PartialEq)]
pub struct Line {
    pub info: String,
    pub content: Vec<u8>,
}

/// A cursor over an annotation listing.
pub struct Lines {
    pub buf: Vec<u8>,
    pub pos: usize,
}

impl Lines {
    /// A cursor at the start of a listing.
    pub fn new(buf: Vec<u8>) -> (r: Lines)
        ensures
            r.buf@ == buf@,
            r.pos == 0,
    {
        Lines { buf, pos: 0 }
    }

    /// The next annotated line: the run up to the next newline, split
    /// at its first `: ` into origin information and content.  `None`
    /// once the listing is exhausted or the last line is unterminated;
    /// a line without `: ` has empty origin information and keeps its
    /// whole text as content.
    pub fn next_line(&mut self) -> (r: Result<Option<Line>, HglibError>)
        ensures
            final(self).buf@ == old(self).buf@,
            old(self).pos >= old(self).buf@.len() ==> (r == Ok::<Option<Line>, HglibError>(
                None::<Line>,
            ) && final(self).pos == old(self).pos),
            old(self).pos < old(self).buf@.len() ==> ({
                let s = old(self).buf@;
                let p = old(self).pos as int;
                let nl = crate::scan::spec_find(s, 10, p);
                &&& (nl == s.len() ==> (r == Ok::<Option<Line>, HglibError>(None::<Line>)
                    && final(self).pos == old(self).pos))
                &&& (nl < s.len() ==> ({
                    let line = s.subrange(p, nl);
                    let i = crate::commands::config::first_colon_space(line, 0);
                    let info = if i < line.len() {
                        line.take(i)
                    } else {
                        Seq::<u8>::empty()
                    };
                    let content = if i < line.len() {
                        line.skip(i + 2)
                    } else {
                        line
                    };
                    &&& (r is Err <==> !vstd::utf8::valid_utf8(info))
                    &&& (r matches Ok(opt) ==> (opt matches Some(l) && vstd::utf8::encode_utf8(
                        l.info@,
                    ) == info && l.content@ == content && final(self).pos == nl + 1
                        && final(self).pos > old(self).pos))
                }))
            }),
    {
        if self.pos >= self.buf.len() {
            return Ok(None);
        }
        let nl = crate::scan::find_byte(self.buf.as_slice(), 10, self.pos);
        proof {
            crate::scan::lemma_find(self.buf@, 10, self.pos as int);
        }
        if nl == self.buf.len() {
            return Ok(None);
        }
        let line = slice_subrange(self.buf.as_slice(), self.pos, nl);
        let (info, content) = match crate::commands::config::get_skv(line) {
            Some((before, after)) => (before, after),
            None => (Vec::new(), slice_to_vec(line)),
        };
        proof {
            assert(info@ =~= ({
                let i = crate::commands::config::first_colon_space(line@, 0);
                if i < line@.len() {
                    line@.take(i)
                } else {
                    Seq::<u8>::empty()
                }
            }));
        }
        let info_text = match utf8_to_string(&info) {
            Some(s) => s,
            None => {
                return Err(HglibError::from_str("invalid utf-8 in annotation"));
            },
        };
        self.pos = nl + 1;
        Ok(Some(Line { info: info_text, content }))
    }
}

/// Run `annotate` and return a cursor over its lines.
pub fn annotate<R: Runner>(client: &mut R, x: Arg<'_>) -> (r: Result<Lines, HglibError>) {
    let (data, _) = x.run(client)?;
    Ok(Lines::new(data))
}

} // verus!

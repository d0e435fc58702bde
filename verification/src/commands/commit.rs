//! The `commit` command: record changes, returning the new revision
//! and node.

use crate::builder::new_args;
use crate::builder::MkArg;
use crate::client::HglibError;
use crate::client::NoPrompt;
use crate::client::Runner;
use crate::scan::split_bytes;
use crate::scan::spec_starts_with;
use crate::scan::starts_with;
use crate::scan::utf8_to_string;
use vstd::prelude::*;
use vstd::slice::slice_subrange;
use vstd::slice::slice_to_vec;

verus! {

/// Parameters of `commit`.
pub struct Arg<'a> {
    pub message: &'a str,
    pub logfile: &'a str,
    pub addremove: bool,
    pub closebranch: bool,
    pub date: &'a str,
    pub user: &'a str,
    pub incl: &'a [&'a str],
    pub excl: &'a [&'a str],
    pub amend: bool,
    pub subrepos: bool,
    pub secret: bool,
}

impl<'a> Default for Arg<'a> {
    fn default() -> (r: Self)
        ensures
            r.message@.len() == 0 && r.logfile@.len() == 0 && !r.addremove && !r.closebranch
                && r.date@.len() == 0 && r.user@.len() == 0 && r.incl@.len() == 0 && r.excl@.len()
                == 0 && !r.amend && !r.subrepos && !r.secret,
    {
        proof {
            reveal_strlit("");
        }
        Arg {
            message: "",
            logfile: "",
            addremove: false,
            closebranch: false,
            date: "",
            user: "",
            incl: &[],
            excl: &[],
            amend: false,
            subrepos: false,
            secret: false,
        }
    }
}

impl<'a> Arg<'a> {
    /// The argument strings of this request, under a possibly amended
    /// message.
    pub open spec fn spec_args_with(&self, message: Seq<char>) -> Seq<Seq<char>> {
        seq!["commit"@] + true.contributes("--debug"@) + (if message.len() == 0 {
            Seq::<Seq<char>>::empty()
        } else {
            seq!["-m"@, message]
        }) + self.addremove.contributes("-A"@) + self.closebranch.contributes("--close-branch"@)
            + self.date.contributes("-d"@) + self.user.contributes("-u"@)
            + self.logfile.contributes("-l"@) + self.incl.contributes("-I"@)
            + self.excl.contributes("-X"@) + self.amend.contributes("--amend"@)
            + self.subrepos.contributes("-S"@) + self.secret.contributes("--secret"@)
            + crate::builder::separator()
    }

    /// Render the request's argument list under a message.
    pub fn to_args_with(&self, message: &str) -> (r: Vec<String>)
        ensures
            r.deep_view() == self.spec_args_with(message@),
    {
        let mut args = new_args("commit");
        true.mk("--debug", &mut args);
        message.mk("-m", &mut args);
        self.addremove.mk("-A", &mut args);
        self.closebranch.mk("--close-branch", &mut args);
        self.date.mk("-d", &mut args);
        self.user.mk("-u", &mut args);
        self.logfile.mk("-l", &mut args);
        self.incl.mk("-I", &mut args);
        self.excl.mk("-X", &mut args);
        self.amend.mk("--amend", &mut args);
        self.subrepos.mk("-S", &mut args);
        self.secret.mk("--secret", &mut args);
        crate::builder::push_separator(&mut args);
        args
    }

    /// Send the request under this argument set's own message.
    pub fn run<R: Runner>(&self, client: &mut R) -> Result<(Vec<u8>, i32), HglibError> {
        let args = self.to_args_with(self.message);
        let mut no_prompt: Option<NoPrompt> = None;
        client.runcommand(&args, &mut no_prompt)
    }
}

/// The changeset a commit produced.
#[derive(Debug, PartialEq)]
pub struct Commit {
    pub rev: u64,
    pub node: String,
}

/// The notice whose line carries the new revision and node in debug
/// output.
pub open spec fn committed_notice() -> Seq<u8> {
    vstd::utf8::encode_utf8("committed changeset "@)
}

/// The first line of a listing that starts with the committed
/// notice, or the line count when there is none.
pub open spec fn find_notice(lines: Seq<Seq<u8>>) -> int
    decreases lines.len(),
{
    if lines.len() == 0 {
        0
    } else if spec_starts_with(lines[0], committed_notice()) {
        0
    } else {
        1 + find_notice(lines.drop_first())
    }
}

/// What `find_notice` returns: the first notice line's index, with no
/// earlier one.
proof fn lemma_find_notice(lines: Seq<Seq<u8>>)
    ensures
        0 <= find_notice(lines) <= lines.len(),
        find_notice(lines) < lines.len() ==> spec_starts_with(
            lines[find_notice(lines)],
            committed_notice(),
        ),
        forall|j: int|
            0 <= j < find_notice(lines) ==> !spec_starts_with(#[trigger] lines[j], committed_notice()),
    decreases lines.len(),
{
    if lines.len() > 0 && !spec_starts_with(lines[0], committed_notice()) {
        lemma_find_notice(lines.drop_first());
        assert(forall|j: int|
            1 <= j < lines.len() ==> #[trigger] lines[j] == lines.drop_first()[j - 1]);
    }
}

/// The revision digits and node bytes of a notice line: what follows
/// the notice, split at its colon.
pub open spec fn notice_parts(line: Seq<u8>) -> (Seq<u8>, Seq<u8>) {
    let rn = line.skip(committed_notice().len() as int);
    let c = crate::scan::spec_find(rn, 58, 0);
    let nstart = if c < rn.len() {
        c + 1
    } else {
        c
    };
    (rn.take(c), rn.skip(nstart))
}

/// Whether a notice line is well formed: a decimal revision before the
/// colon and UTF-8 text after it.
pub open spec fn notice_line_ok(line: Seq<u8>) -> bool {
    &&& crate::scan::all_digits(notice_parts(line).0)
    &&& crate::scan::dec_value(notice_parts(line).0) <= u64::MAX
    &&& vstd::utf8::valid_utf8(notice_parts(line).1)
}

/// Parse the debug output of a commit: the first line starting with
/// the committed-changeset notice carries `rev:node`.
pub fn parse(data: &Vec<u8>) -> (r: Result<Commit, HglibError>)
    ensures
        ({
            let lines = crate::scan::split_by(data@, 10);
            let k = find_notice(lines);
            &&& (r is Ok <==> k < lines.len() && notice_line_ok(lines[k]))
            &&& (r matches Ok(c) ==> c.rev as int == crate::scan::dec_value(
                notice_parts(lines[k]).0,
            ) && vstd::utf8::encode_utf8(c.node@) == notice_parts(lines[k]).1)
        }),
{
    let notice = "committed changeset ".as_bytes();
    let lines = split_bytes(data.as_slice(), 10);
    let ghost f = crate::scan::split_by(data@, 10);
    proof {
        assert(lines.deep_view() == f);
        assert(forall|j: int| 0 <= j < f.len() ==> #[trigger] f[j] =~= lines@[j]@);
        lemma_find_notice(f);
    }
    let mut i: usize = 0;
    while i < lines.len()
        invariant
            0 <= i <= lines@.len(),
            f == crate::scan::split_by(data@, 10),
            f == lines.deep_view(),
            f.len() == lines@.len(),
            forall|j: int| 0 <= j < f.len() ==> #[trigger] f[j] =~= lines@[j]@,
            notice@ == committed_notice(),
            forall|j: int| 0 <= j < i ==> !spec_starts_with(#[trigger] f[j], committed_notice()),
        decreases lines@.len() - i,
    {
        let line = &lines[i];
        if starts_with(line.as_slice(), notice) {
            proof {
                lemma_find_notice(f);
                assert(spec_starts_with(f[i as int], committed_notice()));
                assert(find_notice(f) == i) by {
                    if find_notice(f) < i {
                        assert(!spec_starts_with(f[find_notice(f)], committed_notice()));
                    }
                    if find_notice(f) > i {
                        assert(!spec_starts_with(f[i as int], committed_notice()));
                    }
                }
            }
            let rn = slice_subrange(line.as_slice(), notice.len(), line.len());
            proof {
                assert(rn@ =~= f[i as int].skip(committed_notice().len() as int));
            }
            let c = crate::scan::find_byte(rn, 58, 0);
            proof {
                crate::scan::lemma_find(rn@, 58, 0);
            }
            let rev = match crate::scan::parse_dec_u64(slice_subrange(rn, 0, c)) {
                Some(v) => v,
                None => {
                    proof {
                        assert(!notice_line_ok(f[i as int]));
                    }
                    return Err(HglibError::from_str("invalid revision in commit output"));
                },
            };
            let nstart = if c < rn.len() {
                c + 1
            } else {
                c
            };
            let node_bytes = slice_to_vec(slice_subrange(rn, nstart, rn.len()));
            proof {
                assert(node_bytes@ =~= notice_parts(f[i as int]).1);
            }
            let node = match utf8_to_string(&node_bytes) {
                Some(s) => s,
                None => {
                    proof {
                        assert(!notice_line_ok(f[i as int]));
                    }
                    return Err(HglibError::from_str("invalid utf-8 in commit node"));
                },
            };
            return Ok(Commit { rev, node });
        }
        i = i + 1;
    }
    proof {
        lemma_find_notice(f);
        assert(find_notice(f) == f.len());
    }
    Err(HglibError::from_str("Revision and node not found in hg output"))
}

/// Run `commit`.  A message or a logfile must be given unless the
/// commit amends; giving both is rejected.  When amending without a
/// message, the current changeset's description is fetched and reused.
pub fn commit<R: Runner>(client: &mut R, x: Arg<'_>) -> (r: Result<Commit, HglibError>)
    ensures
        (x.message@.len() == 0 && x.logfile@.len() == 0 && !x.amend) ==> (r matches Err(e)
            && e.code == -1 && e.msg@ == "Must provide at least a message or a logfile"@),
        (x.message@.len() > 0 && x.logfile@.len() > 0) ==> (r matches Err(e) && e.code == -1
            && e.msg@ == "Cannot specify both a message and a logfile"@),
{
    let fetched: Option<String> = if x.amend && x.message.is_empty() && x.logfile.is_empty() {
        let mut log_args = new_args("log");
        "." .mk("-r", &mut log_args);
        1u32.mk("-l", &mut log_args);
        "{desc}".mk("--template", &mut log_args);
        crate::builder::push_separator(&mut log_args);
        let mut no_prompt: Option<NoPrompt> = None;
        let (desc, _) = client.runcommand(&log_args, &mut no_prompt)?;
        match utf8_to_string(&desc) {
            Some(s) => Some(s),
            None => {
                return Err(HglibError::from_str("invalid utf-8 in changeset description"));
            },
        }
    } else {
        None
    };
    if x.message.is_empty() && x.logfile.is_empty() && !x.amend {
        return Err(HglibError::from_str("Must provide at least a message or a logfile"));
    }
    if !x.message.is_empty() && !x.logfile.is_empty() {
        return Err(HglibError::from_str("Cannot specify both a message and a logfile"));
    }
    let args = match fetched {
        Some(desc) => x.to_args_with(desc.as_str()),
        None => x.to_args_with(x.message),
    };
    let mut no_prompt: Option<NoPrompt> = None;
    let (data, _) = client.runcommand(&args, &mut no_prompt)?;
    parse(&data)
}

} // verus!

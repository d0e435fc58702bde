//! The `grep` command: search files for a pattern, one NUL-separated
//! field group per match.

use crate::builder::new_args;
use crate::builder::positional1;
use crate::builder::push_separator;
use crate::builder::separator;
use crate::builder::positional_contrib;
use crate::builder::push_positional;
use crate::builder::push_positionals;
use crate::builder::MkArg;
use crate::client::HglibError;
use crate::client::NoPrompt;
use crate::client::Runner;
use crate::commands::version;
use crate::scan::parse_dec_u64;
use crate::scan::split_by;
use crate::scan::split_bytes;
use crate::scan::utf8_to_string;
use vstd::prelude::*;

verus! {

/// Parameters of `grep`.
pub struct Arg<'a> {
    pub pattern: &'a str,
    pub files: &'a [&'a str],
    pub all: bool,
    pub text: bool,
    pub follow: bool,
    pub ignorecase: bool,
    pub fileswithmatches: bool,
    pub line: bool,
    pub user: bool,
    pub date: bool,
    pub incl: &'a [&'a str],
    pub excl: &'a [&'a str],
}

impl<'a> Default for Arg<'a> {
    fn default() -> (r: Self)
        ensures
            r.pattern@.len() == 0 && r.files@.len() == 0 && !r.all && !r.text && !r.follow
                && !r.ignorecase && !r.fileswithmatches && !r.line && !r.user && !r.date
                && r.incl@.len() == 0 && r.excl@.len() == 0,
    {
        proof {
            reveal_strlit("");
        }
        Arg {
            pattern: "",
            files: &[],
            all: false,
            text: false,
            follow: false,
            ignorecase: false,
            fileswithmatches: false,
            line: false,
            user: false,
            date: false,
            incl: &[],
            excl: &[],
        }
    }
}

impl<'a> Arg<'a> {
    /// The argument strings of this request.
    pub open spec fn spec_args(&self) -> Seq<Seq<char>> {
        seq!["grep"@] + self.all.contributes("--all"@) + self.text.contributes("-a"@)
            + self.follow.contributes("-f"@) + self.ignorecase.contributes("-i"@)
            + self.fileswithmatches.contributes("-l"@) + self.line.contributes("-n"@)
            + self.user.contributes("-u"@) + self.date.contributes("-d"@) + self.incl.contributes(
            "-I"@,
        ) + self.excl.contributes("-X"@) + true.contributes("--print0"@) + separator() + positional1(
            self.pattern@,
        ) + positional_contrib(self.files.deep_view())
    }

    /// Render the request's argument list.
    pub fn to_args(&self) -> (r: Vec<String>)
        ensures
            r.deep_view() == self.spec_args(),
    {
        let mut args = new_args("grep");
        self.all.mk("--all", &mut args);
        self.text.mk("-a", &mut args);
        self.follow.mk("-f", &mut args);
        self.ignorecase.mk("-i", &mut args);
        self.fileswithmatches.mk("-l", &mut args);
        self.line.mk("-n", &mut args);
        self.user.mk("-u", &mut args);
        self.date.mk("-d", &mut args);
        self.incl.mk("-I", &mut args);
        self.excl.mk("-X", &mut args);
        true.mk("--print0", &mut args);
        push_separator(&mut args);
        push_positional(&mut args, self.pattern);
        push_positionals(&mut args, self.files);
        args
    }

    /// Send the request and return the raw outcome.
    pub fn run<R: Runner>(&self, client: &mut R) -> Result<(Vec<u8>, i32), HglibError> {
        let args = self.to_args();
        let mut no_prompt: Option<NoPrompt> = None;
        client.runcommand(&args, &mut no_prompt)
    }
}

/// One match: the file it is in, and whatever further fields the
/// request asked the server to print.
#[derive(Clone, Debug, PartialEq)]
pub struct GrepRes {
    pub filename: String,
    pub rev: Option<u64>,
    pub line: Option<u32>,
    pub match_status: Option<String>,
    pub user: Option<String>,
    pub date: Option<String>,
    pub matched: Option<String>,
}

/// What one output field of a match group holds.
pub enum FieldType {
    Filename,
    Rev,
    Line,
    MatchStatus,
    User,
    Date,
    Matched,
}

/// The fields each match group carries for a flag set: the file name
/// always, then revision, line, match status, user and date as asked,
/// and the matched text unless only file names were wanted.
pub open spec fn spec_field_types(
    all: bool,
    line: bool,
    user: bool,
    date: bool,
    fileswithmatches: bool,
    with_rev: bool,
) -> Seq<FieldType> {
    seq![FieldType::Filename] + (if with_rev {
        seq![FieldType::Rev]
    } else {
        Seq::empty()
    }) + (if line {
        seq![FieldType::Line]
    } else {
        Seq::empty()
    }) + (if all {
        seq![FieldType::MatchStatus]
    } else {
        Seq::empty()
    }) + (if user {
        seq![FieldType::User]
    } else {
        Seq::empty()
    }) + (if date {
        seq![FieldType::Date]
    } else {
        Seq::empty()
    }) + (if !fileswithmatches {
        seq![FieldType::Matched]
    } else {
        Seq::empty()
    })
}

/// Build the field list for a flag set.
fn field_types_for(
    all: bool,
    line: bool,
    user: bool,
    date: bool,
    fileswithmatches: bool,
    with_rev: bool,
) -> (r: Vec<FieldType>)
    ensures
        r@ == spec_field_types(all, line, user, date, fileswithmatches, with_rev),
        r@.len() >= 1,
        r@[0] is Filename,
{
    let mut field_types: Vec<FieldType> = Vec::new();
    field_types.push(FieldType::Filename);
    if with_rev {
        field_types.push(FieldType::Rev);
    }
    if line {
        field_types.push(FieldType::Line);
    }
    if all {
        field_types.push(FieldType::MatchStatus);
    }
    if user {
        field_types.push(FieldType::User);
    }
    if date {
        field_types.push(FieldType::Date);
    }
    if !fileswithmatches {
        field_types.push(FieldType::Matched);
    }
    proof {
        assert(field_types@ =~= spec_field_types(all, line, user, date, fileswithmatches, with_rev));
    }
    field_types
}

/// The fields each match group carries, in order, as the flags and the
/// server's version determine them: the version probe decides whether
/// a revision column is present.
fn get_field_types<R: Runner>(client: &mut R, x: &Arg<'_>) -> (r: Result<
    Vec<FieldType>,
    HglibError,
>)
    ensures
        r matches Ok(v) ==> (exists|with_rev: bool|
            v@ == spec_field_types(
                x.all,
                x.line,
                x.user,
                x.date,
                x.fileswithmatches,
                with_rev,
            )) && v@.len() >= 1 && v@[0] is Filename,
{
    let with_rev = if x.all {
        true
    } else {
        let server = version::version(client, version::Arg {  })?;
        let cutoff = version::Version::from_tuple(&(5, 2, None));
        server.lt(&cutoff)
    };
    Ok(field_types_for(x.all, x.line, x.user, x.date, x.fileswithmatches, with_rev))
}

/// Whether a field cycle starts with the file name and names it
/// nowhere else, so that each cycle is one match group.
pub open spec fn filename_leads(ft: Seq<FieldType>) -> bool {
    &&& ft.len() >= 1
    &&& ft[0] is Filename
    &&& forall|i: int| 1 <= i < ft.len() ==> !((#[trigger] ft[i]) is Filename)
}

/// The number of match groups the field cycle cuts a listing into.
pub open spec fn group_count(elements: int, cycle: int) -> int {
    (elements + cycle - 1) / cycle
}

/// Parse a grep listing against a field cycle: the NUL-separated
/// elements fill the fields of one match after another, and the
/// trailing group, an artifact of the final separator, is dropped.
#[verifier::rlimit(50)]
pub fn parse(data: &Vec<u8>, field_types: &Vec<FieldType>) -> (r: Result<Vec<GrepRes>, HglibError>)
    ensures
        filename_leads(field_types@) ==> ({
            let f = split_by(data@, 0);
            let l = field_types@.len() as int;
            r matches Ok(v) ==> (v@.len() == group_count(f.len() as int, l) - 1 && (forall|j: int|
                0 <= j < v@.len() ==> vstd::utf8::encode_utf8((#[trigger] v@[j]).filename@) == f[j
                    * l]))
        }),
{
    if field_types.len() == 0 {
        return Err(HglibError::from_str("empty field cycle"));
    }
    let elements = split_bytes(data.as_slice(), 0);
    let ghost f = split_by(data@, 0);
    proof {
        assert(elements.deep_view() == f);
        assert(forall|j: int| 0 <= j < f.len() ==> #[trigger] f[j] =~= elements@[j]@);
    }
    let mut res: Vec<GrepRes> = Vec::new();
    let mut n: usize = 0;
    let ghost l = field_types@.len() as int;
    proof {
        assert(group_count(0, l) == 0) by (nonlinear_arith)
            requires
                l >= 1,
        ;
    }
    while n < elements.len()
        invariant
            0 <= n <= elements@.len(),
            field_types@.len() >= 1,
            l == field_types@.len(),
            f == split_by(data@, 0),
            f == elements.deep_view(),
            f.len() == elements@.len(),
            forall|j: int| 0 <= j < f.len() ==> #[trigger] f[j] =~= elements@[j]@,
            filename_leads(field_types@) ==> res@.len() == group_count(n as int, l),
            filename_leads(field_types@) ==> (forall|j: int|
                0 <= j < res@.len() ==> vstd::utf8::encode_utf8((#[trigger] res@[j]).filename@)
                    == f[j * l]),
        decreases elements@.len() - n,
    {
        let element = &elements[n];
        let slot = n % field_types.len();
        let ghost q = n as int / l;
        let ghost rm = n as int % l;
        proof {
            assert(element@ == f[n as int]);
            assert(n as int == q * l + rm && 0 <= rm < l && q >= 0) by (nonlinear_arith)
                requires
                    l >= 1,
                    n >= 0,
                    q == n as int / l,
                    rm == n as int % l,
            ;
            assert(slot as int == rm);
            if slot == 0 {
                assert(group_count(n as int, l) == q && group_count(n + 1, l) == q + 1 && n as int
                    == q * l) by (nonlinear_arith)
                    requires
                        l >= 1,
                        q >= 0,
                        rm == 0,
                        n as int == q * l + rm,
                ;
            } else {
                assert(group_count(n as int, l) == q + 1 && group_count(n + 1, l) == q
                    + 1) by (nonlinear_arith)
                    requires
                        l >= 1,
                        q >= 0,
                        1 <= rm < l,
                        n as int == q * l + rm,
                ;
            }
        }
        match field_types[slot] {
            FieldType::Filename => {
                let filename = match utf8_to_string(element) {
                    Some(s) => s,
                    None => {
                        return Err(HglibError::from_str("invalid utf-8 in grep file name"));
                    },
                };
                let entry = GrepRes {
                    filename,
                    rev: None,
                    line: None,
                    match_status: None,
                    user: None,
                    date: None,
                    matched: None,
                };
                proof {
                    if filename_leads(field_types@) {
                        assert(slot == 0) by {
                            if slot != 0 {
                                assert(!((field_types@[slot as int]) is Filename));
                            }
                        }
                        assert(res@.len() == q);
                        assert(res@.len() * l == n as int);
                        assert(vstd::utf8::encode_utf8(entry.filename@) == f[res@.len() * l]);
                    }
                }
                res.push(entry);
            },
            FieldType::Rev => {
                proof {
                    if filename_leads(field_types@) {
                        assert(slot != 0) by {
                            if slot == 0 {
                                assert((field_types@[0]) is Filename);
                            }
                        }
                    }
                }
                let v = match parse_dec_u64(element.as_slice()) {
                    Some(v) => v,
                    None => {
                        return Err(HglibError::from_str("invalid revision in grep output"));
                    },
                };
                match res.pop() {
                    Some(last) => {
                        let entry = GrepRes { rev: Some(v), ..last };
                        res.push(entry);
                    },
                    None => {
                        return Err(HglibError::from_str("grep field with no file name"));
                    },
                }
            },
            FieldType::Line => {
                proof {
                    if filename_leads(field_types@) {
                        assert(slot != 0) by {
                            if slot == 0 {
                                assert((field_types@[0]) is Filename);
                            }
                        }
                    }
                }
                let v = match parse_dec_u64(element.as_slice()) {
                    Some(v) => v,
                    None => {
                        return Err(HglibError::from_str("invalid line number in grep output"));
                    },
                };
                if v > 0xFFFFFFFFu64 {
                    return Err(HglibError::from_str("line number out of range"));
                }
                match res.pop() {
                    Some(last) => {
                        let entry = GrepRes { line: Some(v as u32), ..last };
                        res.push(entry);
                    },
                    None => {
                        return Err(HglibError::from_str("grep field with no file name"));
                    },
                }
            },
            FieldType::MatchStatus => {
                proof {
                    if filename_leads(field_types@) {
                        assert(slot != 0) by {
                            if slot == 0 {
                                assert((field_types@[0]) is Filename);
                            }
                        }
                    }
                }
                let text = match utf8_to_string(element) {
                    Some(s) => s,
                    None => {
                        return Err(HglibError::from_str("invalid utf-8 in grep output"));
                    },
                };
                match res.pop() {
                    Some(last) => {
                        let entry = GrepRes { match_status: Some(text), ..last };
                        res.push(entry);
                    },
                    None => {
                        return Err(HglibError::from_str("grep field with no file name"));
                    },
                }
            },
            FieldType::User => {
                proof {
                    if filename_leads(field_types@) {
                        assert(slot != 0) by {
                            if slot == 0 {
                                assert((field_types@[0]) is Filename);
                            }
                        }
                    }
                }
                let text = match utf8_to_string(element) {
                    Some(s) => s,
                    None => {
                        return Err(HglibError::from_str("invalid utf-8 in grep output"));
                    },
                };
                match res.pop() {
                    Some(last) => {
                        let entry = GrepRes { user: Some(text), ..last };
                        res.push(entry);
                    },
                    None => {
                        return Err(HglibError::from_str("grep field with no file name"));
                    },
                }
            },
            FieldType::Date => {
                proof {
                    if filename_leads(field_types@) {
                        assert(slot != 0) by {
                            if slot == 0 {
                                assert((field_types@[0]) is Filename);
                            }
                        }
                    }
                }
                let text = match utf8_to_string(element) {
                    Some(s) => s,
                    None => {
                        return Err(HglibError::from_str("invalid utf-8 in grep output"));
                    },
                };
                match res.pop() {
                    Some(last) => {
                        let entry = GrepRes { date: Some(text), ..last };
                        res.push(entry);
                    },
                    None => {
                        return Err(HglibError::from_str("grep field with no file name"));
                    },
                }
            },
            FieldType::Matched => {
                proof {
                    if filename_leads(field_types@) {
                        assert(slot != 0) by {
                            if slot == 0 {
                                assert((field_types@[0]) is Filename);
                            }
                        }
                    }
                }
                let text = match utf8_to_string(element) {
                    Some(s) => s,
                    None => {
                        return Err(HglibError::from_str("invalid utf-8 in grep output"));
                    },
                };
                match res.pop() {
                    Some(last) => {
                        let entry = GrepRes { matched: Some(text), ..last };
                        res.push(entry);
                    },
                    None => {
                        return Err(HglibError::from_str("grep field with no file name"));
                    },
                }
            },
        }
        n = n + 1;
    }
    proof {
        assert(f.len() >= 1);
        assert(group_count(f.len() as int, l) >= 1) by (nonlinear_arith)
            requires
                l >= 1,
                f.len() >= 1,
        ;
    }
    let _ = res.pop();
    Ok(res)
}

/// Run `grep`.  A result code of 1 means no match; otherwise the
/// output is parsed through [`parse`] against the field cycle the
/// flags and the server's version determine.
pub fn grep<R: Runner>(client: &mut R, x: Arg<'_>) -> (r: Result<Vec<GrepRes>, HglibError>) {
    let data = match x.run(client) {
        Ok(ret) => ret.0,
        Err(e) => {
            if e.code == 1 {
                return Ok(Vec::new());
            } else {
                return Err(e);
            }
        },
    };
    let field_types = get_field_types(client, &x)?;
    parse(&data, &field_types)
}

} // verus!

//! The `showconfig` command: list configuration entries, optionally
//! with the source file each was read from.

use crate::builder::new_args;
use crate::builder::guarded_positionals;
use crate::builder::push_guarded_positionals;
use crate::builder::MkArg;
use crate::client::HglibError;
use crate::client::NoPrompt;
use crate::client::Runner;
use crate::scan::spec_find;
use crate::scan::spec_rfind;
use crate::scan::spec_trim_end;
use crate::scan::trim_end;
use crate::scan::utf8_to_string;
use vstd::prelude::*;
use vstd::slice::slice_subrange;
use vstd::slice::slice_to_vec;
use vstd::utf8::encode_utf8;
use vstd::utf8::valid_utf8;

verus! {

/// Parameters of `showconfig`.
pub struct Arg<'a> {
    pub names: &'a [&'a str],
    pub untrusted: bool,
    pub showsource: bool,
}

impl<'a> Default for Arg<'a> {
    fn default() -> (r: Self)
        ensures
            r.names@.len() == 0 && !r.untrusted && !r.showsource,
    {
        Arg { names: &[], untrusted: false, showsource: false }
    }
}

impl<'a> Arg<'a> {
    /// The argument strings of this request.
    pub open spec fn spec_args(&self) -> Seq<Seq<char>> {
        seq!["showconfig"@] + self.untrusted.contributes("-u"@) + self.showsource.contributes(
            "--debug"@,
        ) + guarded_positionals(self.names.deep_view())
    }

    /// Render the request's argument list.
    pub fn to_args(&self) -> (r: Vec<String>)
        ensures
            r.deep_view() == self.spec_args(),
    {
        let mut args = new_args("showconfig");
        self.untrusted.mk("-u", &mut args);
        self.showsource.mk("--debug", &mut args);
        push_guarded_positionals(&mut args, self.names);
        args
    }

    /// Send the request and return the raw outcome.
    pub fn run<R: Runner>(&self, client: &mut R) -> Result<(Vec<u8>, i32), HglibError> {
        let args = self.to_args();
        let mut no_prompt: Option<NoPrompt> = None;
        client.runcommand(&args, &mut no_prompt)
    }
}

/// One configuration entry: section, key and value, and the source it
/// was read from when the listing carried one.
#[derive(Debug, PartialEq)]
pub struct Config {
    pub source: Option<String>,
    pub section: String,
    pub key: String,
    pub value: String,
}

/// The section, key and value of one `section.key=value` line, after
/// trailing whitespace is removed: the value follows the last `=`, the
/// section precedes the first `.`.
pub open spec fn line_parts(line: Seq<u8>) -> (Seq<u8>, Seq<u8>, Seq<u8>) {
    let l = spec_trim_end(line, true);
    let eq = spec_rfind(l, 61);
    let sk = l.take(eq);
    let value = l.skip(eq + 1);
    let dot = spec_find(sk, 46, 0);
    (sk.take(dot), sk.skip(dot + 1), value)
}

/// Whether one configuration line is well formed: it holds an `=`, a
/// `.` before it, and UTF-8 text throughout.
pub open spec fn line_ok(line: Seq<u8>) -> bool {
    let l = spec_trim_end(line, true);
    let eq = spec_rfind(l, 61);
    &&& eq >= 0
    &&& spec_find(l.take(eq), 46, 0) < l.take(eq).len()
    &&& valid_utf8(line_parts(line).0)
    &&& valid_utf8(line_parts(line).1)
    &&& valid_utf8(line_parts(line).2)
}

/// Split one `section.key=value` line.
pub fn splitline(data: &[u8]) -> (r: Result<(String, String, String), HglibError>)
    ensures
        r is Ok <==> line_ok(data@),
        r matches Ok(t) ==> encode_utf8(t.0@) == line_parts(data@).0 && encode_utf8(t.1@)
            == line_parts(data@).1 && encode_utf8(t.2@) == line_parts(data@).2,
{
    let l = trim_end(data, true);
    let eq = match crate::scan::rfind_byte(l, 61) {
        Some(p) => p,
        None => {
            return Err(HglibError::from_str("invalid line in config"));
        },
    };
    proof {
        lemma_rfind_in_range(l@, 61);
        assert(eq < l@.len());
    }
    let sk = slice_subrange(l, 0, eq);
    let llen = l.len();
    let value_bytes = slice_to_vec(slice_subrange(l, eq + 1, llen));
    let dot = crate::scan::find_byte(sk, 46, 0);
    proof {
        crate::scan::lemma_find(sk@, 46, 0);
    }
    if dot == sk.len() {
        return Err(HglibError::from_str("invalid line in config"));
    }
    let section_bytes = slice_to_vec(slice_subrange(sk, 0, dot));
    let key_bytes = slice_to_vec(slice_subrange(sk, dot + 1, sk.len()));
    proof {
        assert(section_bytes@ =~= line_parts(data@).0);
        assert(key_bytes@ =~= line_parts(data@).1);
        assert(value_bytes@ =~= line_parts(data@).2);
    }
    let section = match utf8_to_string(&section_bytes) {
        Some(s) => s,
        None => {
            return Err(HglibError::from_str("invalid utf-8 in config section"));
        },
    };
    let key = match utf8_to_string(&key_bytes) {
        Some(s) => s,
        None => {
            return Err(HglibError::from_str("invalid utf-8 in config key"));
        },
    };
    let value = match utf8_to_string(&value_bytes) {
        Some(s) => s,
        None => {
            return Err(HglibError::from_str("invalid utf-8 in config value"));
        },
    };
    Ok((section, key, value))
}

/// Where `spec_rfind` finds something, it is a position in the run.
proof fn lemma_rfind_in_range(s: Seq<u8>, b: u8)
    ensures
        spec_rfind(s, b) >= 0 ==> spec_rfind(s, b) < s.len(),
        -1 <= spec_rfind(s, b),
    decreases s.len(),
{
    if s.len() > 0 && s.last() != b {
        lemma_rfind_in_range(s.drop_last(), b);
    }
}

impl Config {
    /// An entry of a plain listing, which names no source.
    pub fn no_source(line: &[u8]) -> (r: Result<Config, HglibError>)
        ensures
            r is Ok <==> line_ok(line@),
            r matches Ok(c) ==> c.source is None && encode_utf8(c.section@) == line_parts(
                line@,
            ).0 && encode_utf8(c.key@) == line_parts(line@).1 && encode_utf8(c.value@)
                == line_parts(line@).2,
    {
        let (section, key, value) = splitline(line)?;
        Ok(Config { source: None, section, key, value })
    }

    /// An entry of a debug listing, which names the source it was read
    /// from.
    pub fn with_source(source: &str, line: &[u8]) -> (r: Result<Config, HglibError>)
        ensures
            r is Ok <==> line_ok(line@),
            r matches Ok(c) ==> (c.source matches Some(s) && s@ == source@) && encode_utf8(
                c.section@,
            ) == line_parts(line@).0 && encode_utf8(c.key@) == line_parts(line@).1 && encode_utf8(
                c.value@,
            ) == line_parts(line@).2,
    {
        let (section, key, value) = splitline(line)?;
        Ok(Config { source: Some(source.to_owned()), section, key, value })
    }
}

/// Whether a colon-space pair starts at a position.
pub open spec fn colon_space_at(s: Seq<u8>, i: int) -> bool {
    0 <= i && i + 1 < s.len() && s[i] == 58 && s[i + 1] == 32
}

/// The first position where `: ` starts, or the length when it occurs
/// nowhere.
pub open spec fn first_colon_space(s: Seq<u8>, from: int) -> int
    decreases s.len() - from,
{
    if from < 0 || from >= s.len() {
        s.len() as int
    } else if colon_space_at(s, from) {
        from
    } else {
        first_colon_space(s, from + 1)
    }
}

/// What `first_colon_space` returns: the first `: ` position at or
/// after `from`, with no earlier occurrence.
pub proof fn lemma_first_colon_space(s: Seq<u8>, from: int)
    requires
        0 <= from <= s.len(),
    ensures
        from <= first_colon_space(s, from) <= s.len(),
        first_colon_space(s, from) < s.len() ==> colon_space_at(s, first_colon_space(s, from)),
        forall|j: int| from <= j < first_colon_space(s, from) ==> !colon_space_at(s, j),
    decreases s.len() - from,
{
    if from < s.len() && !colon_space_at(s, from) {
        lemma_first_colon_space(s, from + 1);
    }
}

/// The source name and the entry of a debug-listing line: what stands
/// before and after the first `: `.
pub fn get_skv(line: &[u8]) -> (r: Option<(Vec<u8>, Vec<u8>)>)
    ensures
        r is Some <==> first_colon_space(line@, 0) < line@.len(),
        r matches Some(p) ==> ({
            let i = first_colon_space(line@, 0);
            p.0@ == line@.take(i) && p.1@ == line@.skip(i + 2)
        }),
{
    let mut n: usize = 0;
    proof {
        lemma_first_colon_space(line@, 0);
    }
    if line.len() == 0 {
        return None;
    }
    while n < line.len() - 1
        invariant
            0 <= n <= line@.len(),
            line@.len() >= 1,
            line@.len() <= usize::MAX,
            first_colon_space(line@, 0) == first_colon_space(line@, n as int),
        decreases line@.len() - n,
    {
        if line[n] == 58 && line[n + 1] == 32 {
            proof {
                assert(colon_space_at(line@, n as int));
                assert(first_colon_space(line@, n as int) == n);
            }
            let before = slice_to_vec(slice_subrange(line, 0, n));
            let after = slice_to_vec(slice_subrange(line, n + 2, line.len()));
            return Some((before, after));
        }
        proof {
            assert(!colon_space_at(line@, n as int));
        }
        n = n + 1;
    }
    proof {
        assert(!colon_space_at(line@, n as int));
        assert(first_colon_space(line@, n + 1) == line@.len());
        assert(first_colon_space(line@, n as int) == line@.len());
    }
    None
}

/// Whether one configuration entry carries a plain line's parts.
pub open spec fn plain_matches(c: Config, p: (Seq<u8>, Seq<u8>, Seq<u8>)) -> bool {
    &&& c.source is None
    &&& encode_utf8(c.section@) == p.0
    &&& encode_utf8(c.key@) == p.1
    &&& encode_utf8(c.value@) == p.2
}

/// The entries of a plain listing: one per non-empty line, in order;
/// one bad line spoils the parse.
pub open spec fn spec_plain(lines: Seq<Seq<u8>>) -> Option<Seq<(Seq<u8>, Seq<u8>, Seq<u8>)>>
    decreases lines.len(),
{
    if lines.len() == 0 {
        Some(Seq::empty())
    } else {
        let rest = spec_plain(lines.drop_first());
        if !line_ok(lines[0]) {
            None
        } else {
            match rest {
                Some(tail) => Some(seq![line_parts(lines[0])] + tail),
                None => None,
            }
        }
    }
}

/// Whether a line is one of the notices a debug listing starts with.
pub open spec fn is_header(line: Seq<u8>) -> bool {
    ||| crate::scan::spec_starts_with(line, encode_utf8("read config from: "@))
    ||| crate::scan::spec_starts_with(line, encode_utf8("set config by: "@))
}

/// The lines after the leading notices of a debug listing.
pub open spec fn skip_headers(lines: Seq<Seq<u8>>) -> Seq<Seq<u8>>
    decreases lines.len(),
{
    if lines.len() > 0 && is_header(lines[0]) {
        skip_headers(lines.drop_first())
    } else {
        lines
    }
}

/// Whether one debug-listing line is well formed: a `: ` separating
/// the source from a well-formed `section.key=value` part, the source
/// in UTF-8.
pub open spec fn sourced_line_ok(line: Seq<u8>) -> bool {
    let i = first_colon_space(line, 0);
    &&& i < line.len()
    &&& valid_utf8(line.take(i))
    &&& line_ok(line.skip(i + 2))
}

/// The source bytes and entry parts of one debug-listing line.
pub open spec fn sourced_parts(line: Seq<u8>) -> (Seq<u8>, (Seq<u8>, Seq<u8>, Seq<u8>)) {
    let i = first_colon_space(line, 0);
    (line.take(i), line_parts(line.skip(i + 2)))
}

/// Whether one configuration entry carries a debug line's source and
/// parts.
pub open spec fn sourced_matches(c: Config, p: (Seq<u8>, (Seq<u8>, Seq<u8>, Seq<u8>))) -> bool {
    &&& (c.source matches Some(s) && encode_utf8(s@) == p.0)
    &&& encode_utf8(c.section@) == p.1.0
    &&& encode_utf8(c.key@) == p.1.1
    &&& encode_utf8(c.value@) == p.1.2
}

/// The entries of a debug listing, after its leading notices.
pub open spec fn spec_sourced(lines: Seq<Seq<u8>>) -> Option<
    Seq<(Seq<u8>, (Seq<u8>, Seq<u8>, Seq<u8>))>,
>
    decreases lines.len(),
{
    if lines.len() == 0 {
        Some(Seq::empty())
    } else {
        let rest = spec_sourced(lines.drop_first());
        if !sourced_line_ok(lines[0]) {
            None
        } else {
            match rest {
                Some(tail) => Some(seq![sourced_parts(lines[0])] + tail),
                None => None,
            }
        }
    }
}

/// Parse a configuration listing.  A plain listing holds one
/// `section.key=value` entry per non-empty line; a debug listing
/// starts with notices naming the files read, and every further line
/// reads `source: section.key=value`.
pub fn parse(data: &Vec<u8>, showsource: bool) -> (r: Result<Vec<Config>, HglibError>)
    ensures
        !showsource ==> ({
            let lines = crate::scan::drop_empty(crate::scan::split_by(data@, 10));
            &&& (r is Ok <==> spec_plain(lines) is Some)
            &&& (r matches Ok(v) ==> (spec_plain(lines) matches Some(specs) && v@.len()
                == specs.len() && (forall|k: int|
                0 <= k < v@.len() ==> plain_matches(#[trigger] v@[k], specs[k]))))
        }),
        showsource ==> ({
            let body = skip_headers(crate::scan::drop_empty(crate::scan::split_by(data@, 10)));
            &&& (r is Ok <==> spec_sourced(body) is Some)
            &&& (r matches Ok(v) ==> (spec_sourced(body) matches Some(specs) && v@.len()
                == specs.len() && (forall|k: int|
                0 <= k < v@.len() ==> sourced_matches(#[trigger] v@[k], specs[k]))))
        }),
{
    let lines = crate::scan::tokens(data.as_slice(), 10);
    let ghost all = crate::scan::drop_empty(crate::scan::split_by(data@, 10));
    proof {
        assert(lines.deep_view() == all);
        assert(forall|j: int| 0 <= j < all.len() ==> #[trigger] all[j] =~= lines@[j]@);
    }
    let mut conf: Vec<Config> = Vec::new();
    if showsource {
        let mut start: usize = 0;
        proof {
            assert(all.skip(0) =~= all);
        }
        while start < lines.len() && (crate::scan::starts_with(
            lines[start].as_slice(),
            "read config from: ".as_bytes(),
        ) || crate::scan::starts_with(lines[start].as_slice(), "set config by: ".as_bytes()))
            invariant
                0 <= start <= lines@.len(),
                all == crate::scan::drop_empty(crate::scan::split_by(data@, 10)),
                all == lines.deep_view(),
                all.len() == lines@.len(),
                forall|j: int| 0 <= j < all.len() ==> #[trigger] all[j] =~= lines@[j]@,
                skip_headers(all) == skip_headers(all.skip(start as int)),
            decreases lines@.len() - start,
        {
            proof {
                assert(is_header(all.skip(start as int)[0]));
                assert(all.skip(start as int).drop_first() =~= all.skip(start + 1));
            }
            start = start + 1;
        }
        proof {
            if start < lines.len() {
                assert(!is_header(all.skip(start as int)[0]));
            }
            assert(skip_headers(all.skip(start as int)) == all.skip(start as int));
        }
        let ghost body = all.skip(start as int);
        let ghost mut done: Seq<(Seq<u8>, (Seq<u8>, Seq<u8>, Seq<u8>))> = Seq::empty();
        let mut i: usize = start;
        proof {
            assert(body.skip(0) =~= body);
        }
        while i < lines.len()
            invariant
                showsource,
                start <= i <= lines@.len(),
                all == crate::scan::drop_empty(crate::scan::split_by(data@, 10)),
                all == lines.deep_view(),
                all.len() == lines@.len(),
                body == all.skip(start as int),
                body == skip_headers(all),
                forall|j: int| 0 <= j < all.len() ==> #[trigger] all[j] =~= lines@[j]@,
                conf@.len() == done.len(),
                forall|k: int|
                    0 <= k < conf@.len() ==> sourced_matches(#[trigger] conf@[k], done[k]),
                spec_sourced(body) == (match spec_sourced(body.skip(i - start)) {
                    Some(tail) => Some(done + tail),
                    None => None::<Seq<(Seq<u8>, (Seq<u8>, Seq<u8>, Seq<u8>))>>,
                }),
            decreases lines@.len() - i,
        {
            let ghost rem = body.skip(i - start);
            proof {
                assert(rem[0] == all[i as int]);
                assert(rem.drop_first() =~= body.skip(i + 1 - start));
            }
            let line = &lines[i];
            match get_skv(line.as_slice()) {
                Some((source_bytes, kv)) => {
                    let source = match utf8_to_string(&source_bytes) {
                        Some(s) => s,
                        None => {
                            proof {
                                assert(!sourced_line_ok(rem[0]));
                            }
                            return Err(HglibError::from_str("invalid utf-8 in config source"));
                        },
                    };
                    let entry = match Config::with_source(source.as_str(), kv.as_slice()) {
                        Ok(entry) => entry,
                        Err(e) => {
                            proof {
                                assert(!sourced_line_ok(rem[0]));
                            }
                            return Err(e);
                        },
                    };
                    proof {
                        assert(sourced_line_ok(rem[0]));
                        assert(sourced_matches(entry, sourced_parts(rem[0])));
                        done = done.push(sourced_parts(rem[0]));
                        assert(forall|tail: Seq<(Seq<u8>, (Seq<u8>, Seq<u8>, Seq<u8>))>|
                            done + tail =~= done.drop_last() + (seq![done.last()] + tail));
                    }
                    conf.push(entry);
                },
                None => {
                    proof {
                        assert(!sourced_line_ok(rem[0]));
                    }
                    return Err(HglibError::from_str("invalid line in config"));
                },
            }
            i = i + 1;
        }
        proof {
            assert(body.skip(lines@.len() - start as int) =~= Seq::<Seq<u8>>::empty());
            assert(spec_sourced(Seq::empty()) == Some(
                Seq::<(Seq<u8>, (Seq<u8>, Seq<u8>, Seq<u8>))>::empty(),
            ));
            assert(done + Seq::<(Seq<u8>, (Seq<u8>, Seq<u8>, Seq<u8>))>::empty() =~= done);
        }
        Ok(conf)
    } else {
        let ghost mut done: Seq<(Seq<u8>, Seq<u8>, Seq<u8>)> = Seq::empty();
        let mut i: usize = 0;
        proof {
            assert(all.skip(0) =~= all);
        }
        while i < lines.len()
            invariant
                !showsource,
                0 <= i <= lines@.len(),
                all == crate::scan::drop_empty(crate::scan::split_by(data@, 10)),
                all == lines.deep_view(),
                all.len() == lines@.len(),
                forall|j: int| 0 <= j < all.len() ==> #[trigger] all[j] =~= lines@[j]@,
                conf@.len() == done.len(),
                forall|k: int| 0 <= k < conf@.len() ==> plain_matches(#[trigger] conf@[k], done[k]),
                spec_plain(all) == (match spec_plain(all.skip(i as int)) {
                    Some(tail) => Some(done + tail),
                    None => None::<Seq<(Seq<u8>, Seq<u8>, Seq<u8>)>>,
                }),
            decreases lines@.len() - i,
        {
            let ghost rem = all.skip(i as int);
            proof {
                assert(rem[0] == all[i as int]);
                assert(rem.drop_first() =~= all.skip(i + 1));
            }
            let line = &lines[i];
            let entry = match Config::no_source(line.as_slice()) {
                Ok(entry) => entry,
                Err(e) => {
                    proof {
                        assert(!line_ok(rem[0]));
                    }
                    return Err(e);
                },
            };
            proof {
                assert(plain_matches(entry, line_parts(rem[0])));
                done = done.push(line_parts(rem[0]));
                assert(forall|tail: Seq<(Seq<u8>, Seq<u8>, Seq<u8>)>|
                    done + tail =~= done.drop_last() + (seq![done.last()] + tail));
            }
            conf.push(entry);
            i = i + 1;
        }
        proof {
            assert(all.skip(all.len() as int) =~= Seq::<Seq<u8>>::empty());
            assert(spec_plain(Seq::empty()) == Some(Seq::<(Seq<u8>, Seq<u8>, Seq<u8>)>::empty()));
            assert(done + Seq::<(Seq<u8>, Seq<u8>, Seq<u8>)>::empty() =~= done);
        }
        Ok(conf)
    }
}

/// Run `showconfig` and parse its listing through [`parse`].
pub fn config<R: Runner>(client: &mut R, x: Arg<'_>) -> (r: Result<Vec<Config>, HglibError>) {
    let showsource = x.showsource;
    let (data, _) = x.run(client)?;
    parse(&data, showsource)
}

} // verus!

//! The `version` command: ask the server for its version and compare
//! versions.

use crate::builder::new_args;
use crate::builder::MkArg;
use crate::client::HglibError;
use crate::client::NoPrompt;
use crate::client::Runner;
use crate::scan::dec_value;
use crate::scan::first_digit;
use crate::scan::is_digit;
use crate::scan::lemma_first_digit;
use crate::scan::lemma_run_end;
use crate::scan::run_end;
use crate::scan::utf8_to_string;
use vstd::prelude::*;
use vstd::slice::slice_subrange;
use vstd::slice::slice_to_vec;

verus! {

/// Parameters of `version`: there are none.
pub struct Arg {}

impl Default for Arg {
    fn default() -> (r: Self) {
        Arg {  }
    }
}

impl Arg {
    /// The argument strings of this request.
    pub open spec fn spec_args(&self) -> Seq<Seq<char>> {
        seq!["version"@] + true.contributes("-q"@) + crate::builder::separator()
    }

    /// Render the request's argument list.
    pub fn to_args(&self) -> (r: Vec<String>)
        ensures
            r.deep_view() == self.spec_args(),
    {
        let mut args = new_args("version");
        true.mk("-q", &mut args);
        crate::builder::push_separator(&mut args);
        args
    }

    /// Send the request and return the raw outcome.
    pub fn run<R: Runner>(&self, client: &mut R) -> Result<(Vec<u8>, i32), HglibError> {
        let args = self.to_args();
        let mut no_prompt: Option<NoPrompt> = None;
        client.runcommand(&args, &mut no_prompt)
    }
}

/// A server version: major, minor, an optional micro level, and any
/// trailing build information.  Versions order by their numbers alone,
/// a missing micro level counting as zero.
#[derive(Debug)]
pub struct Version {
    pub major: u32,
    pub minor: u32,
    pub micro: Option<u32>,
    pub build_info: Option<String>,
}

/// The micro level used for ordering: zero when absent.
pub open spec fn micro_level(v: Version) -> int {
    match v.micro {
        Some(x) => x as int,
        None => 0,
    }
}

/// The order of two versions: by major, then minor, then micro level.
pub open spec fn spec_order(a: Version, b: Version) -> core::cmp::Ordering {
    if a.major != b.major {
        if a.major < b.major {
            core::cmp::Ordering::Less
        } else {
            core::cmp::Ordering::Greater
        }
    } else if a.minor != b.minor {
        if a.minor < b.minor {
            core::cmp::Ordering::Less
        } else {
            core::cmp::Ordering::Greater
        }
    } else if micro_level(a) != micro_level(b) {
        if micro_level(a) < micro_level(b) {
            core::cmp::Ordering::Less
        } else {
            core::cmp::Ordering::Greater
        }
    } else {
        core::cmp::Ordering::Equal
    }
}

impl PartialEq for Version {
    /// Two versions are equal when they order as equal: build
    /// information and a missing micro level are not distinguished.
    fn eq(&self, other: &Version) -> (r: bool) {
        self.major == other.major && self.minor == other.minor && {
            let a = match self.micro {
                Some(x) => x,
                None => 0,
            };
            let b = match other.micro {
                Some(x) => x,
                None => 0,
            };
            a == b
        }
    }
}

impl vstd::std_specs::cmp::PartialEqSpecImpl for Version {
    open spec fn obeys_eq_spec() -> bool {
        true
    }

    open spec fn eq_spec(&self, other: &Version) -> bool {
        spec_order(*self, *other) == core::cmp::Ordering::Equal
    }
}

impl PartialOrd for Version {
    fn partial_cmp(&self, other: &Version) -> (r: Option<core::cmp::Ordering>) {
        if self.major != other.major {
            if self.major < other.major {
                Some(core::cmp::Ordering::Less)
            } else {
                Some(core::cmp::Ordering::Greater)
            }
        } else if self.minor != other.minor {
            if self.minor < other.minor {
                Some(core::cmp::Ordering::Less)
            } else {
                Some(core::cmp::Ordering::Greater)
            }
        } else {
            let a = match self.micro {
                Some(x) => x,
                None => 0,
            };
            let b = match other.micro {
                Some(x) => x,
                None => 0,
            };
            if a < b {
                Some(core::cmp::Ordering::Less)
            } else if a > b {
                Some(core::cmp::Ordering::Greater)
            } else {
                Some(core::cmp::Ordering::Equal)
            }
        }
    }
}

impl vstd::std_specs::cmp::PartialOrdSpecImpl for Version {
    open spec fn obeys_partial_cmp_spec() -> bool {
        true
    }

    open spec fn partial_cmp_spec(&self, other: &Version) -> Option<core::cmp::Ordering> {
        Some(spec_order(*self, *other))
    }
}

impl Version {
    /// The version with the given major, minor and micro numbers and
    /// no build information.
    pub fn from_tuple(v: &(u32, u32, Option<u32>)) -> (r: Version)
        ensures
            r.major == v.0,
            r.minor == v.1,
            r.micro == v.2,
            r.build_info is None,
    {
        Version { major: v.0, minor: v.1, micro: v.2, build_info: None }
    }
}

/// Whether a byte can stand in the build information after the `+`:
/// a decimal digit, a lowercase hex letter, or a dash.
pub open spec fn is_build_byte(b: u8) -> bool {
    is_digit(b) || (97 <= b <= 102) || b == 45
}

/// The end of the build-information run that starts at `from`.
pub open spec fn build_end(s: Seq<u8>, from: int) -> int
    decreases s.len() - from,
{
    if from < 0 || from >= s.len() {
        s.len() as int
    } else if is_build_byte(s[from]) {
        build_end(s, from + 1)
    } else {
        from
    }
}

/// What `build_end` returns: the run from `from` up to it is all
/// build bytes, and it stops at the first other byte.
proof fn lemma_build_end(s: Seq<u8>, from: int)
    requires
        0 <= from <= s.len(),
    ensures
        from <= build_end(s, from) <= s.len(),
        build_end(s, from) < s.len() ==> !is_build_byte(s[build_end(s, from)]),
        forall|j: int| from <= j < build_end(s, from) ==> is_build_byte(s[j]),
    decreases s.len() - from,
{
    if from < s.len() && is_build_byte(s[from]) {
        lemma_build_end(s, from + 1);
    }
}

/// Whether the banner carries a minor number: a dot right after the
/// major run, followed by a digit, with a value that fits.
pub open spec fn minor_ok(s: Seq<u8>) -> bool {
    let d1 = first_digit(s, 0);
    let e1 = run_end(s, d1);
    &&& d1 < s.len()
    &&& dec_value(s.subrange(d1, e1)) <= u32::MAX
    &&& e1 < s.len() && s[e1] == 46
    &&& e1 + 1 < s.len() && is_digit(s[e1 + 1])
    &&& dec_value(s.subrange(e1 + 1, run_end(s, e1 + 1))) <= u32::MAX
}

/// Whether the banner carries a micro level: a second dot, a digit,
/// and a value that fits.
pub open spec fn micro_ok(s: Seq<u8>) -> bool {
    let e2 = run_end(s, run_end(s, first_digit(s, 0)) + 1);
    &&& e2 < s.len() && s[e2] == 46
    &&& e2 + 1 < s.len() && is_digit(s[e2 + 1])
    &&& dec_value(s.subrange(e2 + 1, run_end(s, e2 + 1))) <= u32::MAX
}

/// Where the build information would start: after the micro run when
/// there is one, after the minor run otherwise.
pub open spec fn build_start(s: Seq<u8>) -> int {
    let e2 = run_end(s, run_end(s, first_digit(s, 0)) + 1);
    if micro_ok(s) {
        run_end(s, e2 + 1)
    } else {
        e2
    }
}

/// Whether the banner carries build information: a `+` right after
/// the numbers, followed by at least one build byte.
pub open spec fn build_ok(s: Seq<u8>) -> bool {
    let p = build_start(s);
    p < s.len() && s[p] == 43 && p + 1 < s.len() && is_build_byte(s[p + 1])
}

/// Read a run of decimal digits as a `u32`, starting exactly at
/// `from`; nothing is read when the first byte is not a digit or the
/// value does not fit.
fn digit_run(data: &[u8], from: usize) -> (r: (Option<u32>, usize))
    requires
        from <= data@.len(),
    ensures
        r.0 is Some <==> (from < data@.len() && is_digit(data@[from as int]) && dec_value(
            data@.subrange(from as int, run_end(data@, from as int)),
        ) <= u32::MAX),
        r.0 matches Some(v) ==> (v as int == dec_value(
            data@.subrange(from as int, run_end(data@, from as int)),
        ) && r.1 as int == run_end(data@, from as int) && from < r.1 <= data@.len()),
        r.0 is None ==> r.1 == from,
{
    let ghost s = data@;
    if from >= data.len() || data[from] < 48 || data[from] > 57 {
        return (None, from);
    }
    proof {
        lemma_run_end(s, from as int);
    }
    let ghost stop = run_end(s, from as int);
    let mut e = from;
    let mut v: u64 = 0;
    let mut overflowed = false;
    let mut done = false;
    while e < data.len() && !overflowed && !done
        invariant
            done ==> e == stop,
            s == data@,
            0 <= from <= e <= stop,
            stop == run_end(s, from as int),
            stop <= s.len(),
            run_end(s, e as int) == stop,
            crate::scan::all_digits(s.subrange(from as int, stop)),
            !overflowed ==> v as int == dec_value(s.subrange(from as int, e as int)),
            !overflowed ==> v <= 0xFFFFFFFFu64,
            overflowed ==> dec_value(s.subrange(from as int, e as int)) > u32::MAX,
            v <= 0x9FFFFFFFFu64,
        decreases s.len() - e + if overflowed || done {
            0int
        } else {
            1int
        },
    {
        let b = data[e];
        if b >= 48 && b <= 57 {
            proof {
                assert(s.subrange(from as int, e + 1).drop_last() =~= s.subrange(
                    from as int,
                    e as int,
                ));
                lemma_run_end(s, e + 1);
                assert(run_end(s, e + 1) == stop);
            }
            v = v * 10 + ((b - 48) as u64);
            e = e + 1;
            if v > 0xFFFFFFFFu64 {
                overflowed = true;
            }
        } else {
            proof {
                assert(run_end(s, e as int) == e);
            }
            done = true;
        }
    }
    proof {
        assert(s.subrange(from as int, e as int) =~= s.subrange(from as int, stop).take(e - from));
        crate::scan::lemma_all_digits_take(s.subrange(from as int, stop), e - from);
        crate::scan::lemma_dec_value_monotone(s.subrange(from as int, stop), e - from);
    }
    if overflowed {
        return (None, from);
    }
    proof {
        if !done {
            assert(e == s.len());
            assert(run_end(s, e as int) == e);
        }
        assert(e == stop);
        assert(e > from) by {
            assert(is_digit(s[from as int]));
            assert(run_end(s, from as int) != from);
        }
    }
    ((Some(v as u32)), e)
}

/// Parse the version banner: the first dotted run of numbers gives
/// major, minor and an optional micro level, and a `+`-prefixed run of
/// hex digits and dashes right after them is kept as build
/// information.
pub fn parse(data: &Vec<u8>) -> (r: Result<Version, HglibError>)
    ensures
        r is Ok <==> minor_ok(data@),
        r matches Ok(v) ==> ({
            let s = data@;
            let d1 = first_digit(s, 0);
            let e1 = run_end(s, d1);
            let e2 = run_end(s, e1 + 1);
            &&& v.major as int == dec_value(s.subrange(d1, e1))
            &&& v.minor as int == dec_value(s.subrange(e1 + 1, e2))
            &&& (micro_ok(s) ==> (v.micro matches Some(m) && m as int == dec_value(
                s.subrange(e2 + 1, run_end(s, e2 + 1)),
            )))
            &&& (!micro_ok(s) ==> v.micro is None)
            &&& (build_ok(s) ==> (v.build_info matches Some(b) && vstd::utf8::encode_utf8(b@)
                == s.subrange(build_start(s), build_end(s, build_start(s) + 1))))
            &&& (!build_ok(s) ==> v.build_info is None)
        }),
{
    let ghost sq = data@;
    let s = data.as_slice();
    let mut i: usize = 0;
    while i < s.len() && !(s[i] >= 48 && s[i] <= 57)
        invariant
            0 <= i <= sq.len(),
            sq == s@,
            first_digit(sq, 0) == first_digit(sq, i as int),
        decreases sq.len() - i,
    {
        i = i + 1;
    }
    proof {
        lemma_first_digit(sq, 0);
        if i < sq.len() {
            assert(first_digit(sq, i as int) == i);
        }
    }
    let (major, p1) = match digit_run(s, i) {
        (Some(v), p) => (v, p),
        (None, _) => {
            return Err(HglibError::from_str("no version number in output"));
        },
    };
    if p1 >= s.len() || s[p1] != 46 {
        return Err(HglibError::from_str("no minor version in output"));
    }
    let (minor, p2) = match digit_run(s, p1 + 1) {
        (Some(v), p) => (v, p),
        (None, _) => {
            return Err(HglibError::from_str("no minor version in output"));
        },
    };
    let (micro, p3): (Option<u32>, usize) = if p2 < s.len() && s[p2] == 46 {
        match digit_run(s, p2 + 1) {
            (Some(v), p) => (Some(v), p),
            (None, _) => (None, p2),
        }
    } else {
        (None, p2)
    };
    proof {
        assert(p3 as int == build_start(sq));
    }
    let build_info: Option<String> = if p3 < s.len() && s[p3] == 43 {
        proof {
            lemma_build_end(sq, p3 + 1);
        }
        let mut e = p3 + 1;
        while e < s.len() && ((s[e] >= 48 && s[e] <= 57) || (s[e] >= 97 && s[e] <= 102) || s[e]
            == 45)
            invariant
                sq == s@,
                p3 < e <= sq.len(),
                build_end(sq, p3 + 1) == build_end(sq, e as int),
                forall|j: int| p3 + 1 <= j < e ==> is_build_byte(sq[j]),
            decreases sq.len() - e,
        {
            proof {
                assert(is_build_byte(sq[e as int]));
            }
            e = e + 1;
        }
        proof {
            assert(build_end(sq, e as int) == e);
            assert(build_end(sq, p3 + 1) == e);
        }
        if e == p3 + 1 {
            None
        } else {
            let bytes = slice_to_vec(slice_subrange(s, p3, e));
            proof {
                assert(bytes@ =~= sq.subrange(p3 as int, e as int));
                lemma_ascii_run_utf8(sq.subrange(p3 as int, e as int));
            }
            match utf8_to_string(&bytes) {
                Some(text) => Some(text),
                None => None,
            }
        }
    } else {
        None
    };
    Ok(Version { major, minor, micro, build_info })
}

/// A run of a plus sign and build bytes is valid UTF-8: every byte is
/// a one-byte scalar.
proof fn lemma_ascii_run_utf8(bytes: Seq<u8>)
    requires
        forall|j: int| 0 <= j < bytes.len() ==> bytes[j] < 128,
    ensures
        vstd::utf8::valid_utf8(bytes),
{
    assert(vstd::utf8::partial_valid_utf8(bytes, 0)) by {
        assert(bytes.subrange(0, 0) =~= Seq::<u8>::empty());
    }
    assert forall|j: int|
        0 <= 0 <= j < bytes.len() <= bytes.len() implies #[trigger] vstd::utf8::is_leading_byte_width_1(
        bytes[j],
    ) by {
        assert(bytes[j] < 128);
    }
    vstd::utf8::partial_valid_utf8_extend_ascii_block(bytes, 0, bytes.len() as int);
    assert(bytes.subrange(0, bytes.len() as int) =~= bytes);
}

/// Run `version` and parse the server's banner.
pub fn version<R: Runner>(client: &mut R, x: Arg) -> (r: Result<Version, HglibError>) {
    let (data, _) = x.run(client)?;
    parse(&data)
}

} // verus!

//! Byte-level scanning helpers shared by the handshake and the
//! per-command output parsers: finding a byte, prefix tests, substring
//! search, decimal parsing and rendering, and UTF-8 conversion.

use vstd::prelude::*;
use vstd::string::StringExecFns;
use vstd::utf8::encode_utf8;
use vstd::utf8::valid_utf8;

verus! {

/// The character of one decimal digit value.
pub open spec fn digit_char(d: int) -> char {
    if d == 0 {
        '0'
    } else if d == 1 {
        '1'
    } else if d == 2 {
        '2'
    } else if d == 3 {
        '3'
    } else if d == 4 {
        '4'
    } else if d == 5 {
        '5'
    } else if d == 6 {
        '6'
    } else if d == 7 {
        '7'
    } else if d == 8 {
        '8'
    } else {
        '9'
    }
}

/// The decimal digits of a non-negative number, most significant
/// first.
pub open spec fn dec_digits(n: int) -> Seq<char>
    decreases n,
{
    if n <= 9 {
        seq![digit_char(n)]
    } else {
        dec_digits(n / 10).push(digit_char(n % 10))
    }
}

/// One decimal digit as a string slice.
fn digit_str(d: u64) -> (r: &'static str)
    requires
        d <= 9,
    ensures
        r@ == seq![digit_char(d as int)],
{
    proof {
        reveal_strlit("0");
        reveal_strlit("1");
        reveal_strlit("2");
        reveal_strlit("3");
        reveal_strlit("4");
        reveal_strlit("5");
        reveal_strlit("6");
        reveal_strlit("7");
        reveal_strlit("8");
        reveal_strlit("9");
    }
    let r = if d == 0 {
        "0"
    } else if d == 1 {
        "1"
    } else if d == 2 {
        "2"
    } else if d == 3 {
        "3"
    } else if d == 4 {
        "4"
    } else if d == 5 {
        "5"
    } else if d == 6 {
        "6"
    } else if d == 7 {
        "7"
    } else if d == 8 {
        "8"
    } else {
        "9"
    };
    proof {
        assert(r@ =~= seq![digit_char(d as int)]);
    }
    r
}

/// Render a number in decimal.
pub fn dec_u64(n: u64) -> (r: String)
    ensures
        r@ == dec_digits(n as int),
    decreases n,
{
    if n <= 9 {
        String::from_str(digit_str(n))
    } else {
        let mut s = dec_u64(n / 10);
        s.append(digit_str(n % 10));
        proof {
            assert(dec_digits(n as int / 10) + seq![digit_char(n as int % 10)] =~= dec_digits(
                n as int / 10,
            ).push(digit_char(n as int % 10)));
        }
        s
    }
}

/// Relies on `String::from_utf8`: it succeeds exactly on valid UTF-8
/// input, and the returned string is the one whose byte encoding is
/// that input.
#[verifier::external_body]
pub(crate) fn utf8_to_string(v: &Vec<u8>) -> (r: Option<String>)
    ensures
        r is Some <==> valid_utf8(v@),
        r matches Some(s) ==> encode_utf8(s@) == v@,
{
    match String::from_utf8(v.clone()) {
        Ok(s) => Some(s),
        Err(_) => None,
    }
}

/// Append a run of bytes to a buffer.
pub fn append_bytes(dst: &mut Vec<u8>, src: &[u8])
    ensures
        final(dst)@ == old(dst)@ + src@,
{
    let mut k: usize = 0;
    while k < src.len()
        invariant
            0 <= k <= src@.len(),
            dst@ == old(dst)@ + src@.take(k as int),
        decreases src@.len() - k,
    {
        dst.push(src[k]);
        proof {
            assert(old(dst)@ + src@.take(k + 1 as int) =~= (old(dst)@ + src@.take(k as int)).push(
                src@[k as int],
            ));
        }
        k = k + 1;
    }
    proof {
        assert(src@.take(src@.len() as int) =~= src@);
    }
}

/// The first index at or after `from` holding `b`, or the length if
/// there is none.
pub open spec fn spec_find(s: Seq<u8>, b: u8, from: int) -> int
    decreases s.len() - from,
{
    if from < 0 || from >= s.len() {
        s.len() as int
    } else if s[from] == b {
        from
    } else {
        spec_find(s, b, from + 1)
    }
}

/// What `spec_find` returns: the first position of `b` at or after
/// `from`, or the length.
pub proof fn lemma_find(s: Seq<u8>, b: u8, from: int)
    requires
        0 <= from <= s.len(),
    ensures
        from <= spec_find(s, b, from) <= s.len(),
        spec_find(s, b, from) < s.len() ==> s[spec_find(s, b, from)] == b,
        forall|j: int| from <= j < spec_find(s, b, from) ==> s[j] != b,
    decreases s.len() - from,
{
    if from < s.len() && s[from] != b {
        lemma_find(s, b, from + 1);
    }
}

/// Find the first occurrence of `b` in `s` at or after `from`;
/// returns the length of `s` when there is none.
pub fn find_byte(s: &[u8], b: u8, from: usize) -> (r: usize)
    requires
        from <= s@.len(),
    ensures
        r as int == spec_find(s@, b, from as int),
{
    let mut i = from;
    while i < s.len()
        invariant
            from <= i <= s@.len(),
            spec_find(s@, b, from as int) == spec_find(s@, b, i as int),
        decreases s@.len() - i,
    {
        if s[i] == b {
            return i;
        }
        i = i + 1;
    }
    i
}

/// Whether `p` occurs as a contiguous run inside `s`.
pub open spec fn spec_contains(s: Seq<u8>, p: Seq<u8>) -> bool {
    exists|i: int| 0 <= i && i + p.len() <= s.len() && #[trigger] s.subrange(i, i + p.len()) == p
}

/// Substring search: whether the needle occurs anywhere in the
/// haystack.
pub fn contains_bytes(s: &[u8], p: &[u8]) -> (r: bool)
    ensures
        r == spec_contains(s@, p@),
{
    if p.len() > s.len() {
        assert(!spec_contains(s@, p@));
        return false;
    }
    if p.len() == 0 {
        proof {
            assert(s@.subrange(0, 0 + p@.len() as int) =~= p@);
            assert(spec_contains(s@, p@));
        }
        return true;
    }
    let last = s.len() - p.len();
    let mut i: usize = 0;
    while i <= last
        invariant
            1 <= p@.len() <= s@.len(),
            s@.len() <= usize::MAX,
            last == s@.len() - p@.len(),
            0 <= i,
            i <= last + 1,
            forall|h: int|
                0 <= h < i && h + p@.len() <= s@.len() ==> #[trigger] s@.subrange(h, h + p@.len())
                    != p@,
        decreases last + 1 - i,
    {
        let mut k: usize = 0;
        let mut hit = true;
        while k < p.len()
            invariant
                0 <= k <= p@.len(),
                i <= s@.len() - p@.len(),
                s@.len() <= usize::MAX,
                hit ==> s@.subrange(i as int, i + k as int) == p@.take(k as int),
                !hit ==> s@.subrange(i as int, i + p@.len()) != p@,
            decreases p@.len() - k,
    {
            proof {
                assert(s@.subrange(i as int, i + k + 1 as int) =~= s@.subrange(
                    i as int,
                    i + k as int,
                ).push(s@[i + k]));
                assert(p@.take(k + 1 as int) =~= p@.take(k as int).push(p@[k as int]));
            }
            if s[i + k] != p[k] {
                proof {
                    if s@.subrange(i as int, i + p@.len()) == p@ {
                        assert(s@.subrange(i as int, i + p@.len())[k as int] == s@[i + k]);
                    }
                }
                hit = false;
            } else {
                proof {
                    if hit {
                        assert(s@.subrange(i as int, i + k + 1 as int) =~= p@.take(k + 1 as int));
                    }
                }
            }
            k = k + 1;
        }
        if hit {
            proof {
                assert(p@.take(p@.len() as int) =~= p@);
                assert(s@.subrange(i as int, i + p@.len()) == p@);
            }
            return true;
        }
        i = i + 1;
    }
    proof {
        assert forall|h: int|
            0 <= h && h + p@.len() <= s@.len() implies #[trigger] s@.subrange(h, h + p@.len())
            != p@ by {
            assert(h < i);
        }
    }
    false
}

/// Whether `p` is a prefix of `s`.
pub open spec fn spec_starts_with(s: Seq<u8>, p: Seq<u8>) -> bool {
    p.len() <= s.len() && s.take(p.len() as int) =~= p
}

/// Prefix test.
pub fn starts_with(s: &[u8], p: &[u8]) -> (r: bool)
    ensures
        r == spec_starts_with(s@, p@),
{
    if p.len() > s.len() {
        return false;
    }
    let mut k: usize = 0;
    while k < p.len()
        invariant
            0 <= k <= p@.len(),
            p@.len() <= s@.len(),
            s@.take(k as int) =~= p@.take(k as int),
        decreases p@.len() - k,
    {
        proof {
            assert(s@.take(k + 1 as int) =~= s@.take(k as int).push(s@[k as int]));
            assert(p@.take(k + 1 as int) =~= p@.take(k as int).push(p@[k as int]));
        }
        if s[k] != p[k] {
            return false;
        }
        k = k + 1;
    }
    proof {
        assert(p@.take(p@.len() as int) =~= p@);
    }
    true
}

/// Whether `p` is a suffix of `s`.
pub open spec fn spec_ends_with(s: Seq<u8>, p: Seq<u8>) -> bool {
    p.len() <= s.len() && s.skip(s.len() - p.len()) =~= p
}

/// Suffix test.
pub fn ends_with(s: &[u8], p: &[u8]) -> (r: bool)
    ensures
        r == spec_ends_with(s@, p@),
{
    if p.len() > s.len() {
        return false;
    }
    let off = s.len() - p.len();
    let mut k: usize = 0;
    while k < p.len()
        invariant
            0 <= k <= p@.len(),
            off == s@.len() - p@.len(),
            s@.len() <= usize::MAX,
            s@.skip(off as int).take(k as int) =~= p@.take(k as int),
        decreases p@.len() - k,
    {
        proof {
            assert(s@.skip(off as int).take(k + 1 as int) =~= s@.skip(off as int).take(
                k as int,
            ).push(s@[off + k]));
            assert(p@.take(k + 1 as int) =~= p@.take(k as int).push(p@[k as int]));
        }
        if s[off + k] != p[k] {
            return false;
        }
        k = k + 1;
    }
    proof {
        assert(p@.take(p@.len() as int) =~= p@);
        assert(s@.skip(off as int).take(p@.len() as int) =~= s@.skip(off as int));
    }
    true
}

/// Whether a run of bytes is free of a given separator byte.
pub open spec fn free_of(s: Seq<u8>, sep: u8) -> bool {
    forall|j: int| 0 <= j < s.len() ==> #[trigger] s[j] != sep
}

/// Splitting at a separator byte, with `cur` the piece read so far.
pub open spec fn split_from(s: Seq<u8>, sep: u8, cur: Seq<u8>) -> Seq<Seq<u8>>
    decreases s.len(),
{
    if s.len() == 0 {
        seq![cur]
    } else if s[0] == sep {
        seq![cur] + split_from(s.drop_first(), sep, Seq::empty())
    } else {
        split_from(s.drop_first(), sep, cur.push(s[0]))
    }
}

/// A run of bytes split at every occurrence of a separator; the
/// result always has one more piece than there are separators.
pub open spec fn split_by(s: Seq<u8>, sep: u8) -> Seq<Seq<u8>> {
    split_from(s, sep, Seq::empty())
}

/// A separator-free run splits into one piece.
pub proof fn lemma_split_free(s: Seq<u8>, sep: u8, cur: Seq<u8>)
    requires
        free_of(s, sep),
    ensures
        split_from(s, sep, cur) =~= seq![cur + s],
    decreases s.len(),
{
    if s.len() == 0 {
        assert(cur + s =~= cur);
    } else {
        lemma_split_free(s.drop_first(), sep, cur.push(s[0]));
        assert(cur.push(s[0]) + s.drop_first() =~= cur + s);
    }
}

/// Splitting peels a separator-free piece off the front.
pub proof fn lemma_split_step(a: Seq<u8>, sep: u8, rest: Seq<u8>, cur: Seq<u8>)
    requires
        free_of(a, sep),
    ensures
        split_from(a + seq![sep] + rest, sep, cur) =~= seq![cur + a] + split_from(
            rest,
            sep,
            Seq::empty(),
        ),
    decreases a.len(),
{
    let s = a + seq![sep] + rest;
    if a.len() == 0 {
        assert(s[0] == sep);
        assert(s.drop_first() =~= rest);
        assert(cur + a =~= cur);
    } else {
        assert(s[0] == a[0]);
        assert(s[0] != sep);
        assert(s.drop_first() =~= a.drop_first() + seq![sep] + rest);
        lemma_split_step(a.drop_first(), sep, rest, cur.push(a[0]));
        assert(cur.push(a[0]) + a.drop_first() =~= cur + a);
    }
}

/// Split a run of bytes at every occurrence of a separator.
pub fn split_bytes(data: &[u8], sep: u8) -> (r: Vec<Vec<u8>>)
    ensures
        r.deep_view() == split_by(data@, sep),
        r@.len() >= 1,
{
    let mut parts: Vec<Vec<u8>> = Vec::new();
    let mut cur: Vec<u8> = Vec::new();
    let mut pos: usize = 0;
    proof {
        assert(data@.skip(0) =~= data@);
        assert(parts.deep_view() =~= Seq::<Seq<u8>>::empty());
    }
    while pos < data.len()
        invariant
            0 <= pos <= data@.len(),
            split_by(data@, sep) == parts.deep_view() + split_from(
                data@.skip(pos as int),
                sep,
                cur@,
            ),
        decreases data@.len() - pos,
    {
        let ghost rem = data@.skip(pos as int);
        proof {
            assert(rem.len() > 0);
            assert(rem[0] == data@[pos as int]);
            assert(rem.drop_first() =~= data@.skip(pos + 1));
        }
        let b = data[pos];
        if b == sep {
            let ghost prev = parts.deep_view();
            let done = cur;
            cur = Vec::new();
            parts.push(done);
            proof {
                assert(parts.deep_view() =~~= prev.push(done@));
                assert(prev + (seq![done@] + split_from(data@.skip(pos + 1), sep, cur@))
                    =~= prev.push(done@) + split_from(data@.skip(pos + 1), sep, cur@));
            }
        } else {
            cur.push(b);
        }
        pos = pos + 1;
    }
    let ghost prev = parts.deep_view();
    parts.push(cur);
    proof {
        assert(data@.skip(data@.len() as int) =~= Seq::<u8>::empty());
        assert(split_from(Seq::<u8>::empty(), sep, cur@) == seq![cur@]);
        assert(parts.deep_view() =~~= prev.push(cur@));
        assert(prev + seq![cur@] =~= prev.push(cur@));
        assert(parts.deep_view() == split_by(data@, sep));
    }
    parts
}

/// Whether a byte counts as trailing whitespace: space, newline, and
/// optionally tab.
pub open spec fn is_trailing_ws(b: u8, tabs: bool) -> bool {
    b == 32 || b == 10 || (tabs && b == 9)
}

/// The run with its trailing whitespace removed.
pub open spec fn spec_trim_end(s: Seq<u8>, tabs: bool) -> Seq<u8>
    decreases s.len(),
{
    if s.len() > 0 && is_trailing_ws(s.last(), tabs) {
        spec_trim_end(s.drop_last(), tabs)
    } else {
        s
    }
}

/// Remove trailing whitespace: spaces, newlines, and tabs when asked.
pub fn trim_end(data: &[u8], tabs: bool) -> (r: &[u8])
    ensures
        r@ == spec_trim_end(data@, tabs),
{
    let mut end = data.len();
    let mut done = false;
    proof {
        assert(data@.take(data@.len() as int) =~= data@);
    }
    while !done && end > 0
        invariant
            0 <= end <= data@.len(),
            spec_trim_end(data@, tabs) == spec_trim_end(data@.take(end as int), tabs),
            done ==> spec_trim_end(data@.take(end as int), tabs) == data@.take(end as int),
        decreases end + if done {
            0int
        } else {
            1int
        },
    {
        let b = data[end - 1];
        if b == 32 || b == 10 || (tabs && b == 9) {
            proof {
                assert(data@.take(end as int).drop_last() =~= data@.take(end - 1));
            }
            end = end - 1;
        } else {
            proof {
                assert(data@.take(end as int).last() == b);
            }
            done = true;
        }
    }
    proof {
        if !done {
            assert(data@.take(0) =~= Seq::<u8>::empty());
        }
        assert(spec_trim_end(data@, tabs) == data@.take(end as int));
    }
    vstd::slice::slice_subrange(data, 0, end)
}

/// Whether a byte is an ASCII decimal digit.
pub open spec fn is_digit(b: u8) -> bool {
    48 <= b <= 57
}

/// Whether every byte of a run is a decimal digit.
pub open spec fn all_digits(s: Seq<u8>) -> bool {
    forall|i: int| 0 <= i < s.len() ==> is_digit(#[trigger] s[i])
}

/// The value of a run of decimal digits; the empty run has value 0.
pub open spec fn dec_value(s: Seq<u8>) -> int
    decreases s.len(),
{
    if s.len() == 0 {
        0
    } else {
        dec_value(s.drop_last()) * 10 + (s.last() - 48)
    }
}

/// Parse a run of bytes as an unsigned decimal number.  Fails when a
/// byte is not a digit or the value does not fit a `u64`; the empty
/// run parses as 0.
pub fn parse_dec_u64(s: &[u8]) -> (r: Option<u64>)
    ensures
        r is Some <==> all_digits(s@) && dec_value(s@) <= u64::MAX,
        r matches Some(v) ==> v as int == dec_value(s@),
{
    let mut i: usize = 0;
    let mut v: u64 = 0;
    while i < s.len()
        invariant
            0 <= i <= s@.len(),
            all_digits(s@.take(i as int)),
            v as int == dec_value(s@.take(i as int)),
        decreases s@.len() - i,
    {
        let b = s[i];
        if b < 48 || b > 57 {
            proof {
                lemma_dec_value_nondigit(s@, i as int);
            }
            return None;
        }
        let d = (b - 48) as u64;
        if v > (u64::MAX - d) / 10 {
            proof {
                assert(dec_value(s@.take(i + 1 as int)) > u64::MAX) by {
                    assert(s@.take(i + 1 as int).drop_last() =~= s@.take(i as int));
                    assert(v as int * 10 + d > u64::MAX) by (nonlinear_arith)
                        requires
                            v as int > (u64::MAX - d) / 10,
                            0 <= d <= 9,
                    ;
                };
                if all_digits(s@) {
                    lemma_dec_value_monotone(s@, i + 1);
                }
            }
            return None;
        }
        proof {
            assert(v as int * 10 + d <= u64::MAX) by (nonlinear_arith)
                requires
                    v as int <= (u64::MAX - d) / 10,
                    0 <= d <= 9,
            ;
            assert(s@.take(i + 1 as int).drop_last() =~= s@.take(i as int));
        }
        v = v * 10 + d;
        i = i + 1;
    }
    proof {
        assert(s@.take(s@.len() as int) =~= s@);
    }
    Some(v)
}

/// A non-digit anywhere spoils the whole run.
proof fn lemma_dec_value_nondigit(s: Seq<u8>, i: int)
    requires
        0 <= i < s.len(),
        !is_digit(s[i]),
    ensures
        !all_digits(s),
{
}

/// Every byte of a prefix of a digit run is a digit.
pub proof fn lemma_all_digits_take(s: Seq<u8>, i: int)
    requires
        all_digits(s),
        0 <= i <= s.len(),
    ensures
        all_digits(s.take(i)),
{
    assert forall|j: int| 0 <= j < i implies is_digit(#[trigger] s.take(i)[j]) by {
        assert(s.take(i)[j] == s[j]);
    }
}

/// Once a prefix exceeds a bound, the whole run does too: appending
/// digits never shrinks the value.
pub proof fn lemma_dec_value_monotone(s: Seq<u8>, i: int)
    requires
        0 <= i <= s.len(),
        all_digits(s),
    ensures
        dec_value(s.take(i)) <= dec_value(s),
    decreases s.len() - i,
{
    if i < s.len() {
        lemma_dec_value_monotone(s, i + 1);
        assert(s.take(i + 1).drop_last() =~= s.take(i));
        lemma_all_digits_take(s, i);
        lemma_dec_value_nonneg(s.take(i));
        assert(dec_value(s.take(i)) * 10 + (s[i] - 48) >= dec_value(s.take(i))) by (nonlinear_arith)
            requires
                dec_value(s.take(i)) >= 0,
                s[i] >= 48,
        ;
    } else {
        assert(s.take(i) =~= s);
    }
}

pub proof fn lemma_dec_value_nonneg(s: Seq<u8>)
    requires
        all_digits(s),
    ensures
        dec_value(s) >= 0,
    decreases s.len(),
{
    if s.len() > 0 {
        assert(s.drop_last() =~= s.take(s.len() - 1));
        lemma_all_digits_take(s, s.len() - 1);
        lemma_dec_value_nonneg(s.drop_last());
        assert(is_digit(s.last()));
        assert(dec_value(s.drop_last()) * 10 >= 0) by (nonlinear_arith)
            requires
                dec_value(s.drop_last()) >= 0,
        ;
    }
}

} // verus!

verus! {

/// The non-empty pieces of a list, in order.
pub open spec fn drop_empty(f: Seq<Seq<u8>>) -> Seq<Seq<u8>>
    decreases f.len(),
{
    if f.len() == 0 {
        Seq::empty()
    } else {
        (if f[0].len() == 0 {
            Seq::empty()
        } else {
            seq![f[0]]
        }) + drop_empty(f.drop_first())
    }
}

/// One more piece extends the non-empty selection on the right.
pub proof fn lemma_drop_empty_push(f: Seq<Seq<u8>>, x: Seq<u8>)
    ensures
        drop_empty(f.push(x)) =~= drop_empty(f) + (if x.len() == 0 {
            Seq::<Seq<u8>>::empty()
        } else {
            seq![x]
        }),
    decreases f.len(),
{
    let cx: Seq<Seq<u8>> = if x.len() == 0 {
        Seq::empty()
    } else {
        seq![x]
    };
    if f.len() == 0 {
        assert(f.push(x).drop_first() =~= Seq::<Seq<u8>>::empty());
        assert(f.push(x)[0] == x);
        assert(drop_empty(Seq::<Seq<u8>>::empty()) =~= Seq::<Seq<u8>>::empty());
        assert(drop_empty(f.push(x)) =~= cx);
        assert(drop_empty(f) =~= Seq::<Seq<u8>>::empty());
    } else {
        let c0: Seq<Seq<u8>> = if f[0].len() == 0 {
            Seq::empty()
        } else {
            seq![f[0]]
        };
        lemma_drop_empty_push(f.drop_first(), x);
        assert(f.push(x).drop_first() =~= f.drop_first().push(x));
        assert(f.push(x)[0] == f[0]);
        assert(drop_empty(f.push(x)) =~= c0 + (drop_empty(f.drop_first()) + cx));
        assert(c0 + (drop_empty(f.drop_first()) + cx) =~= (c0 + drop_empty(f.drop_first())) + cx);
    }
}

/// The non-empty tokens of a run of bytes split at a separator.
pub fn tokens(data: &[u8], sep: u8) -> (r: Vec<Vec<u8>>)
    ensures
        r.deep_view() == drop_empty(split_by(data@, sep)),
{
    let pieces = split_bytes(data, sep);
    let ghost f = split_by(data@, sep);
    let mut r: Vec<Vec<u8>> = Vec::new();
    let mut i: usize = 0;
    proof {
        assert(r.deep_view() =~= drop_empty(f.take(0)));
    }
    while i < pieces.len()
        invariant
            0 <= i <= pieces@.len(),
            f == pieces.deep_view(),
            f.len() == pieces@.len(),
            r.deep_view() == drop_empty(f.take(i as int)),
        decreases pieces@.len() - i,
    {
        proof {
            assert(f[i as int] =~= pieces@[i as int]@);
            lemma_drop_empty_push(f.take(i as int), f[i as int]);
            assert(f.take(i + 1 as int) =~= f.take(i as int).push(f[i as int]));
        }
        let ghost before = r.deep_view();
        if pieces[i].len() > 0 {
            let piece = vstd::slice::slice_to_vec(pieces[i].as_slice());
            r.push(piece);
            proof {
                assert(r.deep_view() =~~= before + seq![f[i as int]]);
            }
        } else {
            proof {
                assert(drop_empty(f.take(i + 1 as int)) =~= drop_empty(f.take(i as int)));
            }
        }
        i = i + 1;
    }
    proof {
        assert(f.take(f.len() as int) =~= f);
    }
    r
}

/// The last index holding `b`, or -1 when there is none.
pub open spec fn spec_rfind(s: Seq<u8>, b: u8) -> int
    decreases s.len(),
{
    if s.len() == 0 {
        -1
    } else if s.last() == b {
        s.len() - 1
    } else {
        spec_rfind(s.drop_last(), b)
    }
}

/// Find the last occurrence of `b`, or the length of `s` when there is
/// none.
pub fn rfind_byte(s: &[u8], b: u8) -> (r: Option<usize>)
    ensures
        r matches Some(i) ==> i as int == spec_rfind(s@, b),
        r is None ==> spec_rfind(s@, b) == -1,
{
    let mut end = s.len();
    proof {
        assert(s@.take(s@.len() as int) =~= s@);
    }
    while end > 0
        invariant
            0 <= end <= s@.len(),
            spec_rfind(s@, b) == spec_rfind(s@.take(end as int), b),
        decreases end,
    {
        if s[end - 1] == b {
            proof {
                assert(s@.take(end as int).last() == s@[end - 1]);
            }
            return Some(end - 1);
        }
        proof {
            assert(s@.take(end as int).last() == s@[end - 1]);
            assert(s@.take(end as int).drop_last() =~= s@.take(end - 1));
        }
        end = end - 1;
    }
    proof {
        assert(s@.take(0) =~= Seq::<u8>::empty());
    }
    None
}

/// The run with up to three byte values replaced by a single
/// separator, so that multi-separator fields can be split in one pass.
pub open spec fn normalized(s: Seq<u8>, a: u8, b: u8, c: u8, to: u8) -> Seq<u8> {
    s.map(|i: int, x: u8| if x == a || x == b || x == c { to } else { x })
}

/// Replace three byte values by one separator.
pub fn normalize3(data: &[u8], a: u8, b: u8, c: u8, to: u8) -> (r: Vec<u8>)
    ensures
        r@ == normalized(data@, a, b, c, to),
{
    let mut r: Vec<u8> = Vec::new();
    let mut i: usize = 0;
    proof {
        assert(r@ =~= normalized(data@.take(0), a, b, c, to));
    }
    while i < data.len()
        invariant
            0 <= i <= data@.len(),
            r@ == normalized(data@.take(i as int), a, b, c, to),
        decreases data@.len() - i,
    {
        let x = data[i];
        if x == a || x == b || x == c {
            r.push(to);
        } else {
            r.push(x);
        }
        proof {
            assert(r@ =~= normalized(data@.take(i + 1 as int), a, b, c, to));
        }
        i = i + 1;
    }
    proof {
        assert(data@.take(data@.len() as int) =~= data@);
    }
    r
}

} // verus!

verus! {

/// Whether two byte runs hold the same bytes.
pub fn eq_bytes(a: &[u8], b: &[u8]) -> (r: bool)
    ensures
        r == (a@ == b@),
{
    if a.len() != b.len() {
        proof {
            assert(a@ != b@);
        }
        return false;
    }
    let mut k: usize = 0;
    while k < a.len()
        invariant
            0 <= k <= a@.len(),
            a@.len() == b@.len(),
            a@.take(k as int) =~= b@.take(k as int),
        decreases a@.len() - k,
    {
        proof {
            assert(a@.take(k + 1 as int) =~= a@.take(k as int).push(a@[k as int]));
            assert(b@.take(k + 1 as int) =~= b@.take(k as int).push(b@[k as int]));
        }
        if a[k] != b[k] {
            proof {
                if a@ == b@ {
                    assert(a@[k as int] == b@[k as int]);
                }
            }
            return false;
        }
        k = k + 1;
    }
    proof {
        assert(a@.take(a@.len() as int) =~= a@);
        assert(b@.take(b@.len() as int) =~= b@);
        assert(a@ =~= b@);
    }
    true
}

} // verus!

verus! {

/// The position of the first decimal digit at or after `from`, or the
/// length when there is none.
pub open spec fn first_digit(s: Seq<u8>, from: int) -> int
    decreases s.len() - from,
{
    if from < 0 || from >= s.len() {
        s.len() as int
    } else if is_digit(s[from]) {
        from
    } else {
        first_digit(s, from + 1)
    }
}

/// The end of the digit run that starts at `from`.
pub open spec fn run_end(s: Seq<u8>, from: int) -> int
    decreases s.len() - from,
{
    if from < 0 || from >= s.len() {
        s.len() as int
    } else if is_digit(s[from]) {
        run_end(s, from + 1)
    } else {
        from
    }
}

/// What `first_digit` returns: the first digit position, with nothing
/// but non-digits before it.
pub proof fn lemma_first_digit(s: Seq<u8>, from: int)
    requires
        0 <= from <= s.len(),
    ensures
        from <= first_digit(s, from) <= s.len(),
        first_digit(s, from) < s.len() ==> is_digit(s[first_digit(s, from)]),
        forall|j: int| from <= j < first_digit(s, from) ==> !is_digit(s[j]),
    decreases s.len() - from,
{
    if from < s.len() && !is_digit(s[from]) {
        lemma_first_digit(s, from + 1);
    }
}

/// What `run_end` returns: the run from `from` up to it is all digits,
/// and it stops at the first non-digit.
pub proof fn lemma_run_end(s: Seq<u8>, from: int)
    requires
        0 <= from <= s.len(),
    ensures
        from <= run_end(s, from) <= s.len(),
        run_end(s, from) < s.len() ==> !is_digit(s[run_end(s, from)]),
        forall|j: int| from <= j < run_end(s, from) ==> is_digit(s[j]),
    decreases s.len() - from,
{
    if from < s.len() && is_digit(s[from]) {
        lemma_run_end(s, from + 1);
    }
}

} // verus!

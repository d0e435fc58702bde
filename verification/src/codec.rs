//! The frame codec: big-endian integer fields and the encoding of a
//! `runcommand` request.
//!
//! A request on the wire is the literal bytes `runcommand\n`, a 4-byte
//! big-endian length, and the argument strings joined by NUL bytes.
//! The length field equals the byte length of the joined block, which
//! is the sum of the argument lengths plus one separator between each
//! neighbouring pair.

use crate::client::HglibError;
use vstd::prelude::*;

verus! {

/// The value of four big-endian bytes.
pub open spec fn be32_val(b0: u8, b1: u8, b2: u8, b3: u8) -> int {
    0x1000000 * (b0 as int) + 0x10000 * (b1 as int) + 0x100 * (b2 as int) + (b3 as int)
}

/// The four big-endian bytes of a value below 2^32.
pub open spec fn be32_bytes(x: int) -> Seq<u8>
    recommends
        0 <= x < 0x100000000,
{
    seq![
        (x / 0x1000000 % 256) as u8,
        (x / 0x10000 % 256) as u8,
        (x / 0x100 % 256) as u8,
        (x % 256) as u8,
    ]
}

/// The value of four big-endian bytes read as a two's-complement
/// signed 32-bit integer.
pub open spec fn be32_signed_val(b0: u8, b1: u8, b2: u8, b3: u8) -> int {
    let u = be32_val(b0, b1, b2, b3);
    if u < 0x80000000 {
        u
    } else {
        u - 0x100000000
    }
}

/// Big-endian encoding recovers the value it was made from.
pub proof fn lemma_be32_roundtrip(x: int)
    requires
        0 <= x < 0x100000000,
    ensures
        be32_bytes(x).len() == 4,
        be32_val(be32_bytes(x)[0], be32_bytes(x)[1], be32_bytes(x)[2], be32_bytes(x)[3]) == x,
{
    assert(0x1000000 * (x / 0x1000000 % 256) + 0x10000 * (x / 0x10000 % 256) + 0x100 * (x / 0x100
        % 256) + (x % 256) == x) by (nonlinear_arith)
        requires
            0 <= x < 0x100000000,
    ;
}

/// Encode a `u32` as four big-endian bytes.
pub fn u32_to_be(x: u32) -> (r: Vec<u8>)
    ensures
        r@ == be32_bytes(x as int),
        r@.len() == 4,
{
    let mut r: Vec<u8> = Vec::new();
    r.push((x / 0x1000000 % 256) as u8);
    r.push((x / 0x10000 % 256) as u8);
    r.push((x / 0x100 % 256) as u8);
    r.push((x % 256) as u8);
    assert(r@ =~= be32_bytes(x as int));
    r
}

/// Read four big-endian bytes as a `u32`.
pub fn be_to_u32(b0: u8, b1: u8, b2: u8, b3: u8) -> (r: u32)
    ensures
        r as int == be32_val(b0, b1, b2, b3),
{
    (b0 as u32) * 0x1000000 + (b1 as u32) * 0x10000 + (b2 as u32) * 0x100 + (b3 as u32)
}

/// Read four big-endian bytes as a two's-complement `i32`, the form of
/// the result code of a terminal frame.
pub fn be_to_i32(b0: u8, b1: u8, b2: u8, b3: u8) -> (r: i32)
    ensures
        r as int == be32_signed_val(b0, b1, b2, b3),
{
    let u = be_to_u32(b0, b1, b2, b3);
    if u < 0x80000000 {
        u as i32
    } else {
        let m = u - 0x80000000;
        (m as i32) + i32::MIN
    }
}

/// Encode an `i32` as four big-endian two's-complement bytes.
pub fn i32_to_be(x: i32) -> (r: Vec<u8>)
    ensures
        r@ == be32_bytes(
            if x >= 0 {
                x as int
            } else {
                x as int + 0x100000000
            },
        ),
        r@.len() == 4,
{
    if x >= 0 {
        u32_to_be(x as u32)
    } else {
        let m = x - i32::MIN;
        u32_to_be((m as u32) + 0x80000000)
    }
}

/// The bytes of the request marker, `runcommand` and a newline.
pub open spec fn request_marker() -> Seq<u8> {
    seq![114u8, 117u8, 110u8, 99u8, 111u8, 109u8, 109u8, 97u8, 110u8, 100u8, 10u8]
}

/// The argument strings joined by single NUL separators.
pub open spec fn spec_join(args: Seq<Seq<u8>>) -> Seq<u8>
    decreases args.len(),
{
    if args.len() == 0 {
        Seq::empty()
    } else if args.len() == 1 {
        args[0]
    } else {
        args[0] + seq![0u8] + spec_join(args.drop_first())
    }
}

/// The sum of the byte lengths of the arguments.
pub open spec fn sum_lens(args: Seq<Seq<u8>>) -> int
    decreases args.len(),
{
    if args.len() == 0 {
        0
    } else {
        args[0].len() + sum_lens(args.drop_first())
    }
}

/// The length invariant of the wire format: the joined block is the sum
/// of the argument lengths plus one separator between each pair.
pub proof fn lemma_join_len(args: Seq<Seq<u8>>)
    requires
        args.len() >= 1,
    ensures
        spec_join(args).len() == sum_lens(args) + args.len() - 1,
    decreases args.len(),
{
    if args.len() == 1 {
        assert(sum_lens(args.drop_first()) == 0);
    } else {
        lemma_join_len(args.drop_first());
    }
}

/// Joining after appending one more argument extends the block with a
/// separator and the new argument.
pub proof fn lemma_join_push(args: Seq<Seq<u8>>, a: Seq<u8>)
    ensures
        args.len() == 0 ==> spec_join(args.push(a)) == a,
        args.len() >= 1 ==> spec_join(args.push(a)) =~= spec_join(args) + seq![0u8] + a,
    decreases args.len(),
{
    if args.len() == 0 {
        assert(args.push(a)[0] =~= a);
        assert(spec_join(args.push(a)) =~= a);
    } else if args.len() == 1 {
        assert(args.push(a).drop_first() =~= seq![a]);
        assert(spec_join(seq![a]) == a);
        assert(spec_join(args.push(a)) =~= args[0] + seq![0u8] + a);
        assert(spec_join(args) == args[0]);
    } else {
        lemma_join_push(args.drop_first(), a);
        assert(args.push(a).drop_first() =~= args.drop_first().push(a));
        assert(spec_join(args.push(a)) =~= args[0] + seq![0u8] + spec_join(
            args.drop_first().push(a),
        ));
        assert(args[0] + seq![0u8] + (spec_join(args.drop_first()) + seq![0u8] + a) =~= (args[0]
            + seq![0u8] + spec_join(args.drop_first())) + seq![0u8] + a);
    }
}

/// The full encoded request for an argument list.
pub open spec fn spec_request(args: Seq<Seq<u8>>) -> Seq<u8> {
    request_marker() + be32_bytes(spec_join(args).len() as int) + spec_join(args)
}

/// Whether an argument list can be encoded: at least one argument, and
/// a joined block whose length fits the 4-byte length field.
pub open spec fn encodable(args: Seq<Seq<u8>>) -> bool {
    args.len() >= 1 && spec_join(args).len() < 0x100000000
}

/// Encode one request: the marker, the length field, and the NUL-joined
/// argument block.
pub fn encode_request(args: &Vec<Vec<u8>>) -> (r: Result<Vec<u8>, HglibError>)
    ensures
        r is Ok <==> encodable(args.deep_view()),
        r matches Ok(enc) ==> enc@ == spec_request(args.deep_view()),
{
    proof {
        if args.deep_view().len() >= 1 {
            lemma_join_len(args.deep_view());
        }
    }
    if args.len() == 0 {
        return Err(HglibError::from_str("a request needs at least one argument"));
    }
    // The byte length of the joined argument block.
    let mut total: u64 = 0;
    let mut i: usize = 0;
    while i < args.len()
        invariant
            i <= args.len(),
            total as int == sum_lens(args.deep_view().take(i as int)) + if i > 0 {
                i - 1
            } else {
                0
            },
            total <= 0xFFFFFFFF,
            args.deep_view().len() == args.len(),
        decreases args.len() - i,
    {
        proof {
            lemma_sum_lens_take(args.deep_view(), i as int);
            assert(args.deep_view()[i as int] =~= args[i as int]@);
        }
        let extra: u64 = if i > 0 {
            1
        } else {
            0
        };
        if extra > 0xFFFFFFFFu64 - total || args[i].len() as u64 > 0xFFFFFFFFu64 - total - extra {
            // The length field cannot hold the joined block.
            proof {
                let ghost v = args.deep_view();
                lemma_sum_lens_take(v, i as int);
                lemma_sum_lens_split(v, i + 1);
                lemma_sum_lens_nonneg(v.skip(i + 1));
                assert(v[i as int] =~= args[i as int]@);
                assert(total as int + extra as int + args[i as int]@.len() > 0xFFFFFFFF);
                assert(sum_lens(v) >= sum_lens(v.take(i as int)) + v[i as int].len());
                assert(v.len() >= i + 1);
                lemma_join_len(v);
                assert(spec_join(v).len() > 0xFFFFFFFF);
            }
            return Err(HglibError::from_str("request arguments too long to encode"));
        }
        total = total + extra + args[i].len() as u64;
        i = i + 1;
    }
    proof {
        assert(args.deep_view().take(args.len() as int) =~= args.deep_view());
        lemma_join_len(args.deep_view());
        assert(total as int == spec_join(args.deep_view()).len());
    }
    let mut enc: Vec<u8> = Vec::new();
    enc.push(114u8);
    enc.push(117u8);
    enc.push(110u8);
    enc.push(99u8);
    enc.push(111u8);
    enc.push(109u8);
    enc.push(109u8);
    enc.push(97u8);
    enc.push(110u8);
    enc.push(100u8);
    enc.push(10u8);
    assert(enc@ =~= request_marker());
    let mut len_field = u32_to_be(total as u32);
    enc.append(&mut len_field);
    let ghost header = enc@;
    let mut i: usize = 0;
    while i < args.len()
        invariant
            i <= args.len(),
            args.deep_view().len() == args.len(),
            enc@ == header + spec_join(args.deep_view().take(i as int)),
            header == request_marker() + be32_bytes(spec_join(args.deep_view()).len() as int),
        decreases args.len() - i,
    {
        if i > 0 {
            enc.push(0u8);
        }
        let arg = &args[i];
        let mut k: usize = 0;
        while k < arg.len()
            invariant
                k <= arg.len(),
                i < args.len(),
                arg == args[i as int],
                enc@ == header + spec_join(args.deep_view().take(i as int)) + (if i > 0 {
                    seq![0u8]
                } else {
                    Seq::<u8>::empty()
                }) + arg@.take(k as int),
            decreases arg.len() - k,
        {
            let b = arg[k];
            enc.push(b);
            proof {
                assert(arg@.take(k + 1 as int) =~= arg@.take(k as int).push(b));
                assert(enc@ =~= header + spec_join(args.deep_view().take(i as int)) + (if i > 0 {
                    seq![0u8]
                } else {
                    Seq::<u8>::empty()
                }) + arg@.take(k + 1 as int));
            }
            k = k + 1;
        }
        proof {
            assert(arg@.take(arg.len() as int) =~= arg@);
            assert(args.deep_view()[i as int] =~= arg@);
            lemma_join_push(args.deep_view().take(i as int), arg@);
            assert(args.deep_view().take(i as int).push(arg@) =~= args.deep_view().take(
                i + 1 as int,
            ));
            if i > 0 {
                assert(enc@ =~= header + spec_join(args.deep_view().take(i + 1 as int)));
            } else {
                assert(enc@ =~= header + spec_join(args.deep_view().take(i + 1 as int)));
            }
        }
        i = i + 1;
    }
    proof {
        assert(args.deep_view().take(args.len() as int) =~= args.deep_view());
    }
    Ok(enc)
}

/// Whether a run of bytes is free of NUL separators.
pub open spec fn nul_free(s: Seq<u8>) -> bool {
    crate::scan::free_of(s, 0)
}

/// The argument list carried by a joined block: the block split at its
/// NUL separators.
pub open spec fn spec_split(s: Seq<u8>) -> Seq<Seq<u8>> {
    crate::scan::split_by(s, 0)
}

/// Splitting a joined block recovers the argument list exactly, as
/// long as no argument holds a NUL of its own.
pub proof fn lemma_split_join(args: Seq<Seq<u8>>)
    requires
        args.len() >= 1,
        forall|i: int| 0 <= i < args.len() ==> nul_free(#[trigger] args[i]),
    ensures
        spec_split(spec_join(args)) =~= args,
    decreases args.len(),
{
    if args.len() == 1 {
        crate::scan::lemma_split_free(args[0], 0, Seq::empty());
        assert(Seq::<u8>::empty() + args[0] =~= args[0]);
        assert(spec_split(spec_join(args)) =~= seq![args[0]]);
        assert(seq![args[0]] =~= args);
    } else {
        lemma_split_join(args.drop_first());
        crate::scan::lemma_split_step(args[0], 0, spec_join(args.drop_first()), Seq::empty());
        assert(Seq::<u8>::empty() + args[0] =~= args[0]);
        assert(spec_split(spec_join(args)) =~= seq![args[0]] + args.drop_first());
        assert(seq![args[0]] + args.drop_first() =~= args);
    }
}

/// Whether a byte run is a well-formed encoded request: the marker,
/// a length field, and exactly that many bytes of joined arguments.
pub open spec fn well_formed_request(s: Seq<u8>) -> bool {
    &&& s.len() >= 15
    &&& s.take(11) == request_marker()
    &&& be32_val(s[11], s[12], s[13], s[14]) == s.len() - 15
}

/// The request marker as bytes, `runcommand` and a newline.
pub fn request_marker_bytes() -> (r: Vec<u8>)
    ensures
        r@ == request_marker(),
{
    let mut r: Vec<u8> = Vec::new();
    r.push(114u8);
    r.push(117u8);
    r.push(110u8);
    r.push(99u8);
    r.push(111u8);
    r.push(109u8);
    r.push(109u8);
    r.push(97u8);
    r.push(110u8);
    r.push(100u8);
    r.push(10u8);
    assert(r@ =~= request_marker());
    r
}

/// Decode one encoded request back into its argument list: checks the
/// marker and the length field, then splits the joined block at its
/// NUL separators.
pub fn decode_request(bytes: &Vec<u8>) -> (r: Result<Vec<Vec<u8>>, HglibError>)
    ensures
        r is Ok <==> well_formed_request(bytes@),
        r matches Ok(parts) ==> parts.deep_view() == spec_split(bytes@.skip(15)),
{
    let marker = request_marker_bytes();
    if bytes.len() < 15 {
        return Err(HglibError::from_str("request too short"));
    }
    if !crate::scan::starts_with(bytes.as_slice(), marker.as_slice()) {
        proof {
            if bytes@.take(11) == request_marker() {
                assert(crate::scan::spec_starts_with(bytes@, marker@));
            }
        }
        return Err(HglibError::from_str("request marker missing"));
    }
    assert(bytes@.take(11) =~= request_marker());
    let len = be_to_u32(bytes[11], bytes[12], bytes[13], bytes[14]);
    if !(len as usize == bytes.len() - 15) {
        return Err(HglibError::from_str("request length field does not match"));
    }
    let payload = vstd::slice::slice_subrange(bytes.as_slice(), 15, bytes.len());
    let parts = crate::scan::split_bytes(payload, 0);
    Ok(parts)
}

/// The framing round-trip: an encoded request is well formed, and
/// decoding it recovers exactly the argument list it was made from, as
/// long as every argument is free of NUL bytes.
pub proof fn lemma_request_roundtrip(args: Seq<Seq<u8>>)
    requires
        encodable(args),
        forall|i: int| 0 <= i < args.len() ==> nul_free(#[trigger] args[i]),
    ensures
        well_formed_request(spec_request(args)),
        spec_request(args).skip(15) == spec_join(args),
        spec_split(spec_request(args).skip(15)) == args,
{
    let req = spec_request(args);
    let join = spec_join(args);
    lemma_be32_roundtrip(join.len() as int);
    assert(req.take(11) =~= request_marker());
    assert(req.skip(15) =~= join);
    assert(req[11] == be32_bytes(join.len() as int)[0]);
    assert(req[12] == be32_bytes(join.len() as int)[1]);
    assert(req[13] == be32_bytes(join.len() as int)[2]);
    assert(req[14] == be32_bytes(join.len() as int)[3]);
    lemma_split_join(args);
}

/// `sum_lens` over a prefix extended by one element.
proof fn lemma_sum_lens_take(args: Seq<Seq<u8>>, i: int)
    requires
        0 <= i < args.len(),
    ensures
        sum_lens(args.take(i + 1)) == sum_lens(args.take(i)) + args[i].len(),
    decreases args.len(),
{
    if i == 0 {
        assert(args.take(1).drop_first() =~= Seq::empty());
        assert(args.take(0) =~= Seq::empty());
    } else {
        lemma_sum_lens_take(args.drop_first(), i - 1);
        assert(args.take(i + 1).drop_first() =~= args.drop_first().take(i));
        assert(args.take(i).drop_first() =~= args.drop_first().take(i - 1));
    }
}

proof fn lemma_sum_lens_nonneg(args: Seq<Seq<u8>>)
    ensures
        sum_lens(args) >= 0,
    decreases args.len(),
{
    if args.len() > 0 {
        lemma_sum_lens_nonneg(args.drop_first());
    }
}

/// Splitting a sequence splits its length sum.
proof fn lemma_sum_lens_split(args: Seq<Seq<u8>>, i: int)
    requires
        0 <= i <= args.len(),
    ensures
        sum_lens(args) == sum_lens(args.take(i)) + sum_lens(args.skip(i)),
    decreases i,
{
    if i == 0 {
        assert(args.take(0) =~= Seq::empty());
        assert(args.skip(0) =~= args);
    } else {
        lemma_sum_lens_take(args, i - 1);
        lemma_sum_lens_split(args, i - 1);
        assert(args.skip(i - 1).drop_first() =~= args.skip(i));
        assert(args.skip(i - 1)[0] == args[i - 1]);
    }
}

} // verus!

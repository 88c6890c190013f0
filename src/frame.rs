//! Frames: a length header of the machine word's width, little-endian,
//! followed by exactly that many payload bytes.

use vstd::arithmetic::power::pow;
use vstd::layout::size_of;
use vstd::prelude::*;

verus! {

/// The number of bytes in a frame header: the width of `usize`.
pub open spec fn header_len() -> nat {
    size_of::<usize>()
}

/// The `width` least significant base-256 digits of `n`, least significant first.
pub open spec fn le_bytes(n: nat, width: nat) -> Seq<u8>
    decreases width,
{
    if width == 0 {
        Seq::empty()
    } else {
        seq![(n % 256) as u8] + le_bytes(n / 256, (width - 1) as nat)
    }
}

/// The number whose base-256 digits, least significant first, are `s`.
pub open spec fn le_value(s: Seq<u8>) -> nat
    decreases s.len(),
{
    if s.len() == 0 {
        0
    } else {
        (s[0] as nat + 256 * le_value(s.drop_first())) as nat
    }
}

/// The frame that carries `payload`.
pub open spec fn frame_of(payload: Seq<u8>) -> Seq<u8> {
    le_bytes(payload.len(), header_len()) + payload
}

/// The payload of the frame at the front of `stream`, if the stream holds
/// a whole one: the header's value, then that many bytes.
pub open spec fn first_payload(stream: Seq<u8>) -> Option<Seq<u8>> {
    if stream.len() < header_len() {
        None
    } else {
        let n = le_value(stream.subrange(0, header_len() as int));
        if stream.len() < header_len() + n {
            None
        } else {
            Some(stream.subrange(header_len() as int, (header_len() + n) as int))
        }
    }
}

proof fn lemma_le_bytes_len(n: nat, width: nat)
    ensures
        le_bytes(n, width).len() == width,
    decreases width,
{
    if width > 0 {
        lemma_le_bytes_len(n / 256, (width - 1) as nat);
    }
}

proof fn lemma_le_value_of_bytes(n: nat, width: nat)
    requires
        n < pow(256, width),
    ensures
        le_value(le_bytes(n, width)) == n,
    decreases width,
{
    reveal(pow);
    if width > 0 {
        let w1 = (width - 1) as nat;
        let p = pow(256, w1);
        assert(n / 256 < p) by (nonlinear_arith)
            requires
                n < 256 * p,
                p > 0,
        ;
        lemma_le_value_of_bytes(n / 256, w1);
        let s = le_bytes(n, width);
        assert(s.drop_first() =~= le_bytes(n / 256, w1));
        assert(n == n % 256 + 256 * (n / 256)) by (nonlinear_arith);
    } else {
        assert(n == 0);
    }
}

proof fn lemma_word_bound()
    ensures
        usize::MAX as int + 1 == pow(256, header_len()),
        header_len() == 4 || header_len() == 8,
{
    vstd::layout::unsigned_int_max_values();
    broadcast use vstd::layout::layout_of_primitives;
    assert(usize::BITS == 32 || usize::BITS == 64);
}

/// A frame's header decodes to the length of its payload, and the bytes
/// after it are the payload, whatever follows the frame in the stream:
/// frames written one after another are read back one by one, unchanged.
pub proof fn frame_round_trip(payload: Seq<u8>, rest: Seq<u8>)
    requires
        payload.len() <= usize::MAX,
    ensures
        first_payload(frame_of(payload) + rest) == Some(payload),
{
    let h = header_len();
    let s = frame_of(payload) + rest;
    lemma_word_bound();
    lemma_le_bytes_len(payload.len(), h);
    assert(s.subrange(0, h as int) =~= le_bytes(payload.len(), h));
    lemma_le_value_of_bytes(payload.len(), h);
    assert(s.subrange(h as int, (h + payload.len()) as int) =~= payload);
}

/// The header of a frame whose payload is `len` bytes long.
pub fn encode_header(len: usize) -> (r: Vec<u8>)
    ensures
        r@ == le_bytes(len as nat, header_len()),
{
    let width = core::mem::size_of::<usize>();
    let mut out: Vec<u8> = Vec::new();
    let mut rem: usize = len;
    let mut i: usize = 0;
    while i < width
        invariant
            width == header_len(),
            i <= width,
            out@ + le_bytes(rem as nat, (width - i) as nat) == le_bytes(len as nat, width as nat),
        decreases width - i,
    {
        let ghost before = out@;
        out.push((rem % 256) as u8);
        assert(out@ + le_bytes((rem / 256) as nat, (width - i - 1) as nat) =~= before + le_bytes(
            rem as nat,
            (width - i) as nat,
        ));
        rem = rem / 256;
        i = i + 1;
    }
    assert(out@ =~= out@ + le_bytes(rem as nat, 0));
    out
}

/// The frame that carries `payload`: its header, then the payload.
pub fn encode_frame(payload: &[u8]) -> (r: Vec<u8>)
    ensures
        r@ == frame_of(payload@),
{
    let mut out = encode_header(payload.len());
    let ghost header = out@;
    let mut i: usize = 0;
    while i < payload.len()
        invariant
            i <= payload@.len(),
            header == le_bytes(payload@.len(), header_len()),
            out@ == header + payload@.subrange(0, i as int),
        decreases payload@.len() - i,
    {
        out.push(payload[i]);
        i = i + 1;
        assert(out@ =~= header + payload@.subrange(0, i as int));
    }
    assert(payload@.subrange(0, i as int) =~= payload@);
    out
}

/// The payload length that a frame header declares.
pub fn decode_header(header: &[u8]) -> (r: usize)
    requires
        header@.len() == header_len(),
    ensures
        r as nat == le_value(header@),
{
    let width = header.len();
    let ghost h = header@;
    proof {
        lemma_word_bound();
        reveal(pow);
        assert(h.subrange(width as int, width as int) =~= Seq::<u8>::empty());
    }
    let mut acc: usize = 0;
    let mut i: usize = width;
    while i > 0
        invariant
            width == h.len() == header_len(),
            h == header@,
            usize::MAX as int + 1 == pow(256, header_len()),
            i <= width,
            acc as nat == le_value(h.subrange(i as int, width as int)),
            acc < pow(256, (width - i) as nat),
        decreases i,
    {
        let b = header[i - 1];
        let ghost k = (width - i) as nat;
        proof {
            reveal(pow);
            assert(pow(256, k + 1) == 256 * pow(256, k));
            vstd::arithmetic::power::lemma_pow_increases(256, k + 1, width as nat);
            let p = pow(256, k);
            assert(acc * 256 + b < 256 * p) by (nonlinear_arith)
                requires
                    acc < p,
                    b < 256,
            ;
            assert(h.subrange(i - 1, width as int).drop_first() =~= h.subrange(i as int, width as int));
        }
        acc = acc * 256 + b as usize;
        i = i - 1;
    }
    assert(h.subrange(0, width as int) =~= h);
    acc
}

} // verus!

//! The probe body: a send time in epoch milliseconds, written as a 16-byte
//! big-endian unsigned integer.
use vstd::prelude::*;

verus! {

/// Number of bytes that carry the timestamp at the front of a body.
pub const TIMESTAMP_LEN: usize = 16;

/// `256` raised to `n`.
pub open spec fn pow256(n: nat) -> nat
    decreases n,
{
    if n == 0 {
        1
    } else {
        256 * pow256((n - 1) as nat)
    }
}

/// The unsigned integer that `bytes` spell out, most significant byte first.
pub open spec fn be_value(bytes: Seq<u8>) -> nat
    decreases bytes.len(),
{
    if bytes.len() == 0 {
        0
    } else {
        be_value(bytes.drop_last()) * 256 + bytes.last() as nat
    }
}

/// The timestamp that a body carries in its first sixteen bytes.
pub open spec fn embedded_timestamp(body: Seq<u8>) -> nat {
    be_value(body.subrange(0, TIMESTAMP_LEN as int))
}

pub proof fn lemma_pow256_positive(n: nat)
    ensures
        pow256(n) > 0,
    decreases n,
{
    if n > 0 {
        lemma_pow256_positive((n - 1) as nat);
    }
}

/// Sixteen bytes hold exactly the range of `u128`.
pub proof fn lemma_pow256_16()
    ensures
        pow256(16) == u128::MAX as nat + 1,
{
    reveal_with_fuel(pow256, 17);
}

/// A value spelled by `n` bytes is below `256^n`.
pub proof fn lemma_be_value_bound(bytes: Seq<u8>)
    ensures
        be_value(bytes) < pow256(bytes.len()),
    decreases bytes.len(),
{
    if bytes.len() > 0 {
        let init = bytes.drop_last();
        lemma_be_value_bound(init);
        let a = be_value(init);
        let p = pow256(init.len());
        let b = bytes.last() as nat;
        assert(a * 256 + b < 256 * p) by (nonlinear_arith)
            requires
                a < p,
                b < 256,
        ;
    }
}

/// Putting a byte in front adds it at the weight of the bytes that follow.
pub proof fn lemma_be_value_prepend(b: u8, rest: Seq<u8>)
    ensures
        be_value(seq![b] + rest) == (b as nat) * pow256(rest.len()) + be_value(rest),
    decreases rest.len(),
{
    let s = seq![b] + rest;
    if rest.len() == 0 {
        assert(s.drop_last() =~= Seq::<u8>::empty());
        assert(be_value(s) == be_value(s.drop_last()) * 256 + s.last() as nat);
        assert(pow256(0) == 1);
    } else {
        let init = rest.drop_last();
        assert(s.drop_last() =~= seq![b] + init);
        lemma_be_value_prepend(b, init);
        assert(s.last() == rest.last());
        assert(be_value(s) == be_value(s.drop_last()) * 256 + s.last() as nat);
        assert(be_value(rest) == be_value(init) * 256 + rest.last() as nat);
        assert(pow256(rest.len()) == 256 * pow256(init.len()));
        let p = pow256(init.len());
        let x = b as nat;
        let v = be_value(init);
        assert((x * p + v) * 256 + rest.last() as nat == x * (256 * p) + (v * 256
            + rest.last() as nat)) by (nonlinear_arith);
    }
}

/// Writes `ms` as the 16-byte big-endian body of a probe.
pub fn encode_timestamp(ms: u128) -> (r: Vec<u8>)
    ensures
        r@.len() == TIMESTAMP_LEN,
        be_value(r@) == ms as nat,
{
    let mut out: Vec<u8> = vec![0u8; TIMESTAMP_LEN];
    let mut rest: u128 = ms;
    let mut i: usize = TIMESTAMP_LEN;
    proof {
        lemma_pow256_16();
        assert(out@.subrange(16, 16) =~= Seq::<u8>::empty());
        assert(be_value(out@.subrange(16, 16)) == 0);
        assert(pow256(0) == 1);
        assert(i == 16);
        assert(((16 - i) as nat) == 0nat);
        assert(pow256((16 - i) as nat) == 1);
    }
    while i > 0
        invariant
            i <= TIMESTAMP_LEN,
            out@.len() == TIMESTAMP_LEN,
            (rest as nat) < pow256(i as nat),
            be_value(out@.subrange(i as int, 16)) + (rest as nat) * pow256((16 - i) as nat)
                == ms as nat,
        decreases i,
    {
        let ghost old_out = out@;
        let ghost old_rest = rest as nat;
        let byte: u8 = (rest % 256) as u8;
        out.set(i - 1, byte);
        rest = rest / 256;
        i = i - 1;
        proof {
            let tail = old_out.subrange(i as int + 1, 16);
            assert(out@.subrange(i as int + 1, 16) =~= tail);
            assert(out@.subrange(i as int, 16) =~= seq![byte] + tail);
            lemma_be_value_prepend(byte, tail);
            let p = pow256((15 - i) as nat);
            assert(pow256((16 - i) as nat) == 256 * p);
            assert(pow256((i + 1) as nat) == 256 * pow256(i as nat));
            let q = rest as nat;
            let b = byte as nat;
            assert(old_rest == q * 256 + b);
            assert((b * p + be_value(tail)) + q * (256 * p) == be_value(tail) + old_rest * p)
                by (nonlinear_arith)
                requires
                    old_rest == q * 256 + b,
            ;
            assert(q < pow256(i as nat)) by (nonlinear_arith)
                requires
                    old_rest == q * 256 + b,
                    old_rest < 256 * pow256(i as nat),
            ;
        }
    }
    proof {
        assert(out@.subrange(0, 16) =~= out@);
        assert(pow256(0) == 1);
    }
    out
}

/// Reads the timestamp at the front of `body`; `None` when the body is
/// shorter than sixteen bytes.
pub fn decode_timestamp(body: &[u8]) -> (r: Option<u128>)
    ensures
        r.is_none() <==> body@.len() < TIMESTAMP_LEN,
        r matches Some(t) ==> t as nat == embedded_timestamp(body@),
{
    if body.len() < TIMESTAMP_LEN {
        return None;
    }
    let mut acc: u128 = 0;
    let mut i: usize = 0;
    proof {
        assert(body@.subrange(0, 0) =~= Seq::<u8>::empty());
    }
    while i < TIMESTAMP_LEN
        invariant
            i <= TIMESTAMP_LEN <= body@.len(),
            acc as nat == be_value(body@.subrange(0, i as int)),
        decreases TIMESTAMP_LEN - i,
    {
        let ghost prefix = body@.subrange(0, i as int + 1);
        proof {
            assert(prefix.drop_last() =~= body@.subrange(0, i as int));
            lemma_be_value_bound(prefix);
            lemma_pow256_16();
            lemma_pow256_le(prefix.len(), 16);
        }
        acc = acc * 256 + body[i] as u128;
        i = i + 1;
    }
    Some(acc)
}

/// `256^m` does not exceed `256^n` for `m <= n`.
pub proof fn lemma_pow256_le(m: nat, n: nat)
    requires
        m <= n,
    ensures
        pow256(m) <= pow256(n),
    decreases n,
{
    if m < n {
        lemma_pow256_le(m, (n - 1) as nat);
        lemma_pow256_positive((n - 1) as nat);
    }
}

/// Decoding a freshly encoded body gives back the timestamp.
pub proof fn lemma_encoded_timestamp_is_read_back(ms: u128, body: Seq<u8>)
    requires
        body.len() == TIMESTAMP_LEN,
        be_value(body) == ms as nat,
    ensures
        embedded_timestamp(body) == ms as nat,
{
    assert(body.subrange(0, 16) =~= body);
}

} // verus!

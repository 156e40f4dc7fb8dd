use crate::error::TransferError;
use vstd::prelude::*;

verus! {

/// Length of an encoded payload: one byte of bump, eight of amount.
pub const PAYLOAD_LEN: usize = 9;

/// What a transfer instruction carries: the bump that the vault was derived
/// with and the number of lamports to move.
#[derive(Clone, Copy, Debug, PartialEq, Eq, Structural, Hash)]
pub struct InstructionData {
    pub vault_bump_seed: u8,
    pub transfer_amount: u64,
}

/// The number that a little-endian byte string stands for.
pub open spec fn le_value(bytes: Seq<u8>) -> nat
    decreases bytes.len(),
{
    if bytes.len() == 0 {
        0
    } else {
        bytes[0] as nat + 256 * le_value(bytes.drop_first())
    }
}

/// The `width` low-order bytes of `value`, least significant first.
pub open spec fn le_bytes(value: nat, width: nat) -> Seq<u8>
    decreases width,
{
    if width == 0 {
        Seq::empty()
    } else {
        seq![(value % 256) as u8] + le_bytes(value / 256, (width - 1) as nat)
    }
}

/// The wire form of a payload: the bump, then the amount in eight
/// little-endian bytes.
pub open spec fn encoded(bump: u8, amount: u64) -> Seq<u8> {
    seq![bump] + le_bytes(amount as nat, 8)
}

/// What a buffer decodes to: a payload where it is nine bytes long, nothing
/// otherwise.
pub open spec fn decoded(bytes: Seq<u8>) -> Option<InstructionData> {
    if bytes.len() == 9 {
        Some(
            InstructionData {
                vault_bump_seed: bytes[0],
                transfer_amount: le_value(bytes.subrange(1, 9)) as u64,
            },
        )
    } else {
        None
    }
}

/// Encodes a payload: `bump` in the first byte, then `amount` in eight
/// little-endian bytes.
pub fn encode(bump: u8, amount: u64) -> (bytes: Vec<u8>)
    ensures
        bytes@ == encoded(bump, amount),
        bytes@.len() == 9,
{
    let mut bytes: Vec<u8> = Vec::new();
    bytes.push(bump);
    let mut rest: u64 = amount;
    let mut i: usize = 0;
    while i < 8
        invariant
            i <= 8,
            bytes@ + le_bytes(rest as nat, (8 - i) as nat) == encoded(bump, amount),
            bytes@.len() == i + 1,
        decreases 8 - i,
    {
        proof {
            let tail = le_bytes(rest as nat / 256, (8 - i - 1) as nat);
            assert(le_bytes(rest as nat, (8 - i) as nat) == seq![(rest % 256) as u8] + tail);
            assert(bytes@.push((rest % 256) as u8) + tail == bytes@ + (seq![(rest % 256) as u8]
                + tail));
        }
        bytes.push((rest % 256) as u8);
        rest = rest / 256;
        i = i + 1;
    }
    assert(bytes@ + le_bytes(rest as nat, 0) == bytes@);
    bytes
}

/// Decodes a payload. A buffer of any length but nine is malformed; a buffer
/// of nine bytes always decodes, to the bump in its first byte and the amount
/// that its other eight bytes stand for.
pub fn decode(bytes: &[u8]) -> (r: Result<InstructionData, TransferError>)
    ensures
        match r {
            Ok(data) => decoded(bytes@) == Some(data),
            Err(e) => e == TransferError::MalformedPayload && decoded(bytes@) is None,
        },
        r is Ok <==> bytes@.len() == 9,
{
    if bytes.len() != PAYLOAD_LEN {
        return Err(TransferError::MalformedPayload);
    }
    let ghost digits = bytes@.subrange(1, 9);
    let mut amount: u64 = 0;
    let mut i: usize = 9;
    while i > 1
        invariant
            1 <= i <= 9,
            bytes@.len() == 9,
            digits == bytes@.subrange(1, 9),
            amount as nat == le_value(digits.subrange(i - 1, 8)),
        decreases i,
    {
        i = i - 1;
        proof {
            let taken = digits.subrange(i - 1, 8);
            assert(taken.drop_first() == digits.subrange(i as int, 8));
            assert(taken[0] == bytes@[i as int]);
            lemma_le_value_bound(taken);
            lemma_le_value_bound(digits.subrange(i as int, 8));
            lemma_pow256_8();
            lemma_pow256_monotonic(taken.len(), 8);
        }
        amount = amount * 256 + bytes[i] as u64;
    }
    assert(digits.subrange(0, 8) == digits);
    Ok(InstructionData { vault_bump_seed: bytes[0], transfer_amount: amount })
}

/// Decoding an encoded payload gives back the bump and the amount, whatever
/// they are.
pub proof fn law_round_trip(bump: u8, amount: u64)
    ensures
        decoded(encoded(bump, amount)) == Some(
            InstructionData { vault_bump_seed: bump, transfer_amount: amount },
        ),
{
    let digits = le_bytes(amount as nat, 8);
    lemma_le_bytes_len(amount as nat, 8);
    lemma_le_value_of_bytes(amount as nat, 8);
    lemma_pow256_8();
    assert(encoded(bump, amount).subrange(1, 9) == digits);
    assert(amount as nat % pow256(8) == amount as nat);
}

/// A buffer that decodes is the encoding of what it decodes to: no two
/// buffers stand for the same payload.
pub proof fn law_encoding_unique(bytes: Seq<u8>)
    requires
        decoded(bytes) is Some,
    ensures
        encoded(decoded(bytes)->0.vault_bump_seed, decoded(bytes)->0.transfer_amount) == bytes,
{
    let digits = bytes.subrange(1, 9);
    lemma_le_value_bound(digits);
    lemma_pow256_8();
    lemma_le_bytes_of_value(digits);
    assert(seq![bytes[0]] + digits == bytes);
}

/// Writing out the number that a byte string stands for, in as many bytes,
/// gives the string back.
pub proof fn lemma_le_bytes_of_value(bytes: Seq<u8>)
    ensures
        le_bytes(le_value(bytes), bytes.len()) == bytes,
    decreases bytes.len(),
{
    if bytes.len() > 0 {
        let rest = bytes.drop_first();
        lemma_le_bytes_of_value(rest);
        let value = le_value(bytes);
        assert(value % 256 == bytes[0] as nat && value / 256 == le_value(rest)) by {
            assert(value == bytes[0] as nat + 256 * le_value(rest));
        }
        assert(seq![bytes[0]] + rest == bytes);
    }
}

/// 256 to the power `n`.
pub open spec fn pow256(n: nat) -> nat
    decreases n,
{
    if n == 0 {
        1
    } else {
        256 * pow256((n - 1) as nat)
    }
}

/// A little-endian string of `n` bytes stands for a number below `256^n`.
pub proof fn lemma_le_value_bound(bytes: Seq<u8>)
    ensures
        le_value(bytes) < pow256(bytes.len()),
    decreases bytes.len(),
{
    if bytes.len() > 0 {
        lemma_le_value_bound(bytes.drop_first());
    }
}

/// Eight bytes hold exactly the 64-bit numbers.
pub proof fn lemma_pow256_8()
    ensures
        pow256(8) == 0x1_0000_0000_0000_0000,
{
    reveal_with_fuel(pow256, 9);
}

/// `le_bytes` yields `width` bytes.
pub proof fn lemma_le_bytes_len(value: nat, width: nat)
    ensures
        le_bytes(value, width).len() == width,
    decreases width,
{
    if width > 0 {
        lemma_le_bytes_len(value / 256, (width - 1) as nat);
    }
}

/// Reading back the `width` low-order bytes of `value` gives `value` modulo
/// `256^width`.
pub proof fn lemma_le_value_of_bytes(value: nat, width: nat)
    ensures
        le_value(le_bytes(value, width)) == value % pow256(width),
    decreases width,
{
    if width == 0 {
    } else {
        let rest = le_bytes(value / 256, (width - 1) as nat);
        let all = le_bytes(value, width);
        lemma_le_value_of_bytes(value / 256, (width - 1) as nat);
        assert(all.drop_first() =~= rest);
        let p = pow256((width - 1) as nat);
        lemma_pow256_positive((width - 1) as nat);
        lemma_mod_split(value, p);
    }
}

/// Powers of 256 grow with the exponent.
pub proof fn lemma_pow256_monotonic(m: nat, n: nat)
    requires
        m <= n,
    ensures
        pow256(m) <= pow256(n),
    decreases n,
{
    if m < n {
        lemma_pow256_monotonic(m, (n - 1) as nat);
        lemma_pow256_positive((n - 1) as nat);
    }
}

/// Every power of 256 is positive.
pub proof fn lemma_pow256_positive(n: nat)
    ensures
        pow256(n) > 0,
    decreases n,
{
    if n > 0 {
        lemma_pow256_positive((n - 1) as nat);
    }
}

/// The remainder modulo `256 * p` is the low byte plus 256 times the
/// remainder of the quotient modulo `p`.
proof fn lemma_mod_split(value: nat, p: nat)
    requires
        p > 0,
    ensures
        value % (256 * p) == value % 256 + 256 * ((value / 256) % p),
{
    let q = value / 256;
    let r = value % 256;
    assert(value == 256 * q + r) by (nonlinear_arith)
        requires
            q == value / 256,
            r == value % 256,
    ;
    let qq = q / p;
    let qr = q % p;
    assert(q == p * qq + qr) by (nonlinear_arith)
        requires
            qq == q / p,
            qr == q % p,
            p > 0,
    ;
    assert(0 <= qr < p) by (nonlinear_arith)
        requires
            qr == q % p,
            p > 0,
    ;
    let low = r + 256 * qr;
    assert(value == (256 * p) * qq + low) by (nonlinear_arith)
        requires
            value == 256 * q + r,
            q == p * qq + qr,
            low == r + 256 * qr,
    ;
    assert(0 <= low < 256 * p) by (nonlinear_arith)
        requires
            low == r + 256 * qr,
            0 <= r < 256,
            0 <= qr < p,
    ;
    vstd::arithmetic::div_mod::lemma_fundamental_div_mod_converse(
        value as int,
        (256 * p) as int,
        qq as int,
        low as int,
    );
}

} // verus!

//! Binary quantities of the event model.
//!
//! An `Address` is a 20-byte account or contract identifier. A `U256` is an
//! unsigned 256-bit integer, held as four 64-bit limbs and specified through
//! its mathematical value. Both round-trip losslessly through the byte
//! encodings used on the wire: a log carries an address as the last 20 bytes
//! of a 32-byte topic word, and a value as a 32-byte big-endian data blob.

use vstd::prelude::*;

verus! {

/// The mathematical value of a big-endian byte string.
pub open spec fn be_val(s: Seq<u8>) -> nat
    decreases s.len(),
{
    if s.len() == 0 {
        0
    } else {
        be_val(s.drop_last()) * 256 + s.last() as nat
    }
}

/// 256 to the power `n`.
pub open spec fn p256(n: nat) -> nat
    decreases n,
{
    if n == 0 {
        1
    } else {
        256 * p256((n - 1) as nat)
    }
}

/// Reading a concatenation big-endian is reading the left part, shifted by
/// the length of the right part, plus the right part.
pub proof fn lemma_be_val_concat(a: Seq<u8>, b: Seq<u8>)
    ensures
        be_val(a + b) == be_val(a) * p256(b.len()) + be_val(b),
    decreases b.len(),
{
    if b.len() == 0 {
        assert(a + b =~= a);
        assert(be_val(a) * 1 == be_val(a)) by (nonlinear_arith);
    } else {
        assert((a + b).drop_last() =~= a + b.drop_last());
        assert((a + b).last() == b.last());
        lemma_be_val_concat(a, b.drop_last());
        let x = be_val(a);
        let p = p256((b.len() - 1) as nat);
        let y = be_val(b.drop_last());
        assert(p256(b.len()) == 256 * p);
        assert(be_val(a + b) == (x * p + y) * 256 + b.last());
        assert(be_val(b) == y * 256 + b.last());
        assert((x * p + y) * 256 == x * (256 * p) + y * 256) by (nonlinear_arith);
        assert(be_val(a + b) == x * (256 * p) + (y * 256 + b.last()));
        assert(x * (256 * p) == x * p256(b.len()));
    }
}

/// A 20-byte identifier of an account or contract on the blockchain.
#[derive(Clone, Copy, Debug, PartialEq, Eq)]
pub struct Address {
    pub bytes: [u8; 20],
}

impl View for Address {
    type V = Seq<u8>;

    open spec fn view(&self) -> Seq<u8> {
        self.bytes@
    }
}

impl Address {
    /// An address made of the given 20 bytes.
    pub fn new(bytes: [u8; 20]) -> (r: Self)
        ensures
            r@ == bytes@,
    {
        Address { bytes }
    }

    /// The address carried by a 32-byte topic word: its last 20 bytes.
    pub fn from_word(word: &Vec<u8>) -> (r: Self)
        requires
            word@.len() == 32,
        ensures
            r@ =~= word@.subrange(12, 32),
    {
        let bytes: [u8; 20] = [
            word[12], word[13], word[14], word[15], word[16], word[17], word[18], word[19],
            word[20], word[21], word[22], word[23], word[24], word[25], word[26], word[27],
            word[28], word[29], word[30], word[31],
        ];
        Address { bytes }
    }
}

/// An unsigned 256-bit integer, as four 64-bit limbs, least significant
/// limb first.
#[derive(Clone, Copy, Debug, PartialEq, Eq)]
pub struct U256 {
    pub limb0: u64,
    pub limb1: u64,
    pub limb2: u64,
    pub limb3: u64,
}

impl U256 {
    /// The mathematical value of the quantity.
    pub open spec fn as_nat(&self) -> nat {
        (((self.limb3 as nat) * 0x1_0000_0000_0000_0000 + (self.limb2 as nat))
            * 0x1_0000_0000_0000_0000 + (self.limb1 as nat))
            * 0x1_0000_0000_0000_0000 + (self.limb0 as nat)
    }

    /// The quantity equal to the given 64-bit value.
    pub fn from_u64(v: u64) -> (r: Self)
        ensures
            r.as_nat() == v,
    {
        U256 { limb0: v, limb1: 0, limb2: 0, limb3: 0 }
    }

    /// The quantity denoted by a 32-byte big-endian blob.
    pub fn from_be_bytes(bytes: &Vec<u8>) -> (r: Self)
        requires
            bytes@.len() == 32,
        ensures
            r.as_nat() == be_val(bytes@),
    {
        let limb3 = u64_from_be(bytes, 0);
        let limb2 = u64_from_be(bytes, 8);
        let limb1 = u64_from_be(bytes, 16);
        let limb0 = u64_from_be(bytes, 24);
        proof {
            let s = bytes@;
            assert(s =~= s.subrange(0, 24) + s.subrange(24, 32));
            lemma_be_val_concat(s.subrange(0, 24), s.subrange(24, 32));
            assert(s.subrange(0, 24) =~= s.subrange(0, 16) + s.subrange(16, 24));
            lemma_be_val_concat(s.subrange(0, 16), s.subrange(16, 24));
            assert(s.subrange(0, 16) =~= s.subrange(0, 8) + s.subrange(8, 16));
            lemma_be_val_concat(s.subrange(0, 8), s.subrange(8, 16));
            assert(p256(8) == 0x1_0000_0000_0000_0000) by {
                reveal_with_fuel(p256, 9);
            }
        }
        U256 { limb0, limb1, limb2, limb3 }
    }
}

/// A quantity is determined by its value: the four limbs are the base
/// `2^64` digits of the value, and such digits are unique. Nothing is
/// lost by carrying a `U256` through the pipeline as the number it
/// denotes.
pub proof fn lemma_u256_value_injective(a: U256, b: U256)
    requires
        a.as_nat() == b.as_nat(),
    ensures
        a == b,
{
    let base = 0x1_0000_0000_0000_0000int;
    let qa2 = (a.limb3 * base + a.limb2) * base + a.limb1;
    let qb2 = (b.limb3 * base + b.limb2) * base + b.limb1;
    lemma_digit_unique(qa2, a.limb0 as int, qb2, b.limb0 as int);
    lemma_digit_unique(
        a.limb3 * base + a.limb2,
        a.limb1 as int,
        b.limb3 * base + b.limb2,
        b.limb1 as int,
    );
    lemma_digit_unique(a.limb3 as int, a.limb2 as int, b.limb3 as int, b.limb2 as int);
}

/// If two base-`2^64` digit strings denote the same value, their lowest
/// digits agree, and so do the values the remaining digits denote.
proof fn lemma_digit_unique(qa: int, ra: int, qb: int, rb: int)
    requires
        0 <= qa,
        0 <= ra < 0x1_0000_0000_0000_0000,
        0 <= qb,
        0 <= rb < 0x1_0000_0000_0000_0000,
        qa * 0x1_0000_0000_0000_0000 + ra == qb * 0x1_0000_0000_0000_0000 + rb,
    ensures
        qa == qb,
        ra == rb,
{
    let base = 0x1_0000_0000_0000_0000int;
    let x = qa * base + ra;
    vstd::arithmetic::div_mod::lemma_fundamental_div_mod_converse(x, base, qa, ra);
    vstd::arithmetic::div_mod::lemma_fundamental_div_mod_converse(x, base, qb, rb);
}

/// The value of the 8-byte big-endian chunk of `bytes` starting at `off`.
fn u64_from_be(bytes: &Vec<u8>, off: usize) -> (r: u64)
    requires
        off + 8 <= bytes@.len(),
    ensures
        r as nat == be_val(bytes@.subrange(off as int, off as int + 8)),
{
    let blen: usize = bytes.len();
    let mut acc: u64 = 0;
    let mut i: usize = 0;
    while i < 8
        invariant
            off + 8 <= blen,
            blen == bytes@.len(),
            i <= 8,
            acc as nat == be_val(bytes@.subrange(off as int, off as int + i as int)),
            acc < p256(i as nat),
        decreases 8 - i,
    {
        proof {
            let chunk = bytes@.subrange(off as int, off as int + i as int + 1);
            assert(chunk.drop_last() =~= bytes@.subrange(off as int, off as int + i as int));
            assert(chunk.last() == bytes@[off as int + i as int]);
            assert(p256(8) == 0x1_0000_0000_0000_0000) by {
                reveal_with_fuel(p256, 9);
            }
            lemma_p256_increases(i as nat, 7);
            assert(p256(7) * 256 == p256(8)) by {
                reveal_with_fuel(p256, 9);
            }
            assert(acc * 256 + bytes@[off as int + i as int] < p256((i + 1) as nat))
                by (nonlinear_arith)
                requires
                    acc < p256(i as nat),
                    bytes@[off as int + i as int] < 256,
                    p256((i + 1) as nat) == 256 * p256(i as nat),
            ;
            assert(acc * 256 < p256(7) * 256) by (nonlinear_arith)
                requires
                    acc < p256(7),
            ;
        }
        acc = acc * 256 + (bytes[off + i] as u64);
        i = i + 1;
    }
    acc
}

/// `p256` does not decrease with the exponent.
proof fn lemma_p256_increases(m: nat, n: nat)
    requires
        m <= n,
    ensures
        p256(m) <= p256(n),
    decreases n,
{
    if m < n {
        lemma_p256_increases(m, (n - 1) as nat);
        assert(p256((n - 1) as nat) <= 256 * p256((n - 1) as nat)) by (nonlinear_arith)
            requires
                p256((n - 1) as nat) >= 0,
        ;
    }
}

} // verus!

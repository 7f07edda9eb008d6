//! The bytes of an integer in two's complement, in either byte order.

use vstd::prelude::*;
use vstd::arithmetic::power::pow;

verus! {

/// The `width` low-order bytes of `value` in two's complement, the least
/// significant byte first.
pub open spec fn low_first_bytes(value: int, width: nat) -> Seq<u8>
    decreases width,
{
    if width == 0 {
        Seq::empty()
    } else {
        seq![(value % 256) as u8] + low_first_bytes(value / 256, (width - 1) as nat)
    }
}

/// The `width` low-order bytes of `value` in two's complement, the most
/// significant byte first.
pub open spec fn high_first_bytes(value: int, width: nat) -> Seq<u8> {
    low_first_bytes(value, width).reverse()
}

/// The number that `bytes` spell as digits to the base 256, the least
/// significant digit first.
pub open spec fn low_first_number(bytes: Seq<u8>) -> int
    decreases bytes.len(),
{
    if bytes.len() == 0 {
        0
    } else {
        bytes[0] as int + 256 * low_first_number(bytes.skip(1))
    }
}

/// The number that `bytes` spell as digits to the base 256, the most
/// significant digit first.
pub open spec fn high_first_number(bytes: Seq<u8>) -> int {
    low_first_number(bytes.reverse())
}

/// An integer has as many bytes as its width says.
pub proof fn lemma_low_first_bytes_len(value: int, width: nat)
    ensures
        low_first_bytes(value, width).len() == width,
        high_first_bytes(value, width).len() == width,
    decreases width,
{
    if width > 0 {
        lemma_low_first_bytes_len(value / 256, (width - 1) as nat);
    }
}

/// The bytes of an integer spell the integer modulo the number of patterns
/// that so many bytes have.
pub proof fn lemma_low_first_number_of_bytes(value: int, width: nat)
    ensures
        low_first_number(low_first_bytes(value, width)) == value % pow(256, width),
        0 < pow(256, width),
    decreases width,
{
    reveal(pow);
    if width == 0 {
        assert(pow(256, 0) == 1);
        assert(value % 1 == 0);
    } else {
        let rest = (width - 1) as nat;
        let bytes = low_first_bytes(value, width);
        let q = value / 256;
        let r = value % 256;
        let p = pow(256, rest);
        lemma_low_first_number_of_bytes(q, rest);
        assert(bytes.skip(1) =~= low_first_bytes(q, rest));
        assert(bytes[0] == r as u8);
        assert(pow(256, width) == 256 * p);
        let a = q / p;
        let b = q % p;
        vstd::arithmetic::div_mod::lemma_fundamental_div_mod(q, p);
        vstd::arithmetic::div_mod::lemma_mod_bound(q, p);
        assert(value == a * (256 * p) + (256 * b + r)) by (nonlinear_arith)
            requires
                value == 256 * q + r,
                q == p * a + b,
        ;
        assert(0 <= 256 * b + r < 256 * p) by (nonlinear_arith)
            requires
                0 <= b < p,
                0 <= r < 256,
        ;
        vstd::arithmetic::div_mod::lemma_fundamental_div_mod_converse(
            value,
            256 * p,
            a,
            256 * b + r,
        );
    }
}

/// Reading the bytes of an integer back, in the order in which they were
/// written, gives the integer modulo the number of patterns.
pub proof fn lemma_high_first_number_of_bytes(value: int, width: nat)
    ensures
        high_first_number(high_first_bytes(value, width)) == value % pow(256, width),
{
    let low = low_first_bytes(value, width);
    assert(low.reverse().reverse() =~= low);
    lemma_low_first_number_of_bytes(value, width);
}

/// The `width` low-order bytes of `value` in two's complement, in the byte
/// order asked for. Bytes beyond the sixteenth repeat the sign.
pub fn integer_bytes(value: i128, width: usize, low_first: bool) -> (r: Vec<u8>)
    ensures
        r@ == (if low_first {
            low_first_bytes(value as int, width as nat)
        } else {
            high_first_bytes(value as int, width as nat)
        }),
{
    let mut low: Vec<u8> = Vec::new();
    let mut rest: i128 = value;
    let mut i: usize = 0;
    while i < width
        invariant
            i <= width,
            low@.len() == i,
            low@ + low_first_bytes(rest as int, (width - i) as nat) == low_first_bytes(
                value as int,
                width as nat,
            ),
        decreases width - i,
    {
        let byte: u8;
        let next: i128;
        if rest >= 0 {
            let u: u128 = rest as u128;
            byte = (u % 256) as u8;
            next = (u / 256) as i128;
        } else {
            let m: u128 = (-(rest + 1)) as u128;
            byte = (255 - m % 256) as u8;
            next = -((m / 256) as i128) - 1;
        }
        assert(byte == (rest as int) % 256);
        assert(next == (rest as int) / 256);
        proof {
            let tail = low_first_bytes(next as int, (width - i - 1) as nat);
            assert(low_first_bytes(rest as int, (width - i) as nat) == seq![byte] + tail);
            assert(low@.push(byte) + tail =~= low@ + (seq![byte] + tail));
        }
        low.push(byte);
        rest = next;
        i = i + 1;
    }
    assert(low@ =~= low_first_bytes(value as int, width as nat));
    if low_first {
        return low;
    }
    let mut high: Vec<u8> = Vec::new();
    let mut j: usize = width;
    while j > 0
        invariant
            j <= width,
            low@.len() == width,
            high@.len() == width - j,
            forall|k: int| 0 <= k < high@.len() ==> high@[k] == low@[width - 1 - k],
        decreases j,
    {
        j = j - 1;
        high.push(low[j]);
    }
    assert(high@ =~= low@.reverse());
    high
}

} // verus!

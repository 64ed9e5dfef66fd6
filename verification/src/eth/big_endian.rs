//! Natural numbers as big-endian byte strings.

use vstd::arithmetic::power::{lemma_pow_adds, lemma_pow_increases, pow};
use vstd::prelude::*;

verus! {

/// The number that `bytes` spell in base 256, most significant byte first.
pub open spec fn be_value(bytes: Seq<u8>) -> nat
    decreases bytes.len(),
{
    if bytes.len() == 0 {
        0
    } else {
        256 * be_value(bytes.drop_last()) + bytes.last() as nat
    }
}

/// The shortest non-empty byte string that spells `n`: zero is a single zero byte, every other
/// number starts with a byte that is not zero.
pub open spec fn be_bytes(n: nat) -> Seq<u8>
    decreases n,
{
    if n <= 0xff {
        seq![n as u8]
    } else {
        be_bytes(n / 256).push((n % 256) as u8)
    }
}

/// As [`be_bytes`], but zero is the empty string.
pub open spec fn be_trimmed(n: nat) -> Seq<u8> {
    if n == 0 {
        Seq::empty()
    } else {
        be_bytes(n)
    }
}

/// `data`, with zero bytes in front up to a length of `width`.
pub open spec fn zero_padded(data: Seq<u8>, width: nat) -> Seq<u8> {
    if data.len() >= width {
        data
    } else {
        Seq::new((width - data.len()) as nat, |i: int| 0u8) + data
    }
}

/// Reading back what [`be_bytes`] spells gives the number.
pub proof fn lemma_be_value_of_be_bytes(n: nat)
    ensures
        be_value(be_bytes(n)) == n,
        be_bytes(n).len() >= 1,
        n > 0 ==> be_bytes(n)[0] != 0,
    decreases n,
{
    if n <= 0xff {
        assert(be_bytes(n).drop_last() =~= Seq::<u8>::empty());
        assert(be_value(be_bytes(n).drop_last()) == 0);
    } else {
        lemma_be_value_of_be_bytes(n / 256);
        assert(be_bytes(n).drop_last() =~= be_bytes(n / 256));
    }
}

/// A string of `k` bytes spells less than 256 to the power `k`.
pub proof fn lemma_be_value_upper(bytes: Seq<u8>)
    ensures
        be_value(bytes) < pow(256, bytes.len()),
    decreases bytes.len(),
{
    if bytes.len() == 0 {
        assert(pow(256, 0) == 1) by {
            reveal(pow);
        }
    } else {
        let front = bytes.drop_last();
        lemma_be_value_upper(front);
        lemma_pow_256_step(front.len());
    }
}

/// A string of `k` bytes that does not start with zero spells at least 256 to the power `k - 1`.
pub proof fn lemma_be_value_lower(bytes: Seq<u8>)
    requires
        bytes.len() >= 1,
        bytes[0] != 0,
    ensures
        be_value(bytes) >= pow(256, (bytes.len() - 1) as nat),
    decreases bytes.len(),
{
    let front = bytes.drop_last();
    if bytes.len() == 1 {
        assert(pow(256, 0) == 1) by {
            reveal(pow);
        }
        assert(be_value(front) == 0);
    } else {
        lemma_be_value_lower(front);
        lemma_pow_256_step((front.len() - 1) as nat);
    }
}

/// One more byte is a factor of 256.
proof fn lemma_pow_256_step(k: nat)
    ensures
        pow(256, k + 1) == 256 * pow(256, k),
{
    lemma_pow_adds(256, 1, k);
    assert(pow(256, 1) == 256) by {
        reveal_with_fuel(pow, 2);
    }
}

/// A number takes at most `k` bytes exactly where it is less than 256 to the power `k`.
pub proof fn lemma_be_bytes_len(n: nat, k: nat)
    requires
        k >= 1,
    ensures
        be_bytes(n).len() <= k <==> n < pow(256, k),
{
    lemma_be_value_of_be_bytes(n);
    let len = be_bytes(n).len();
    if len <= k {
        lemma_be_value_upper(be_bytes(n));
        lemma_pow_increases(256, len, k);
    } else {
        if n == 0 {
            assert(be_bytes(n).len() == 1);
        }
        lemma_be_value_lower(be_bytes(n));
        lemma_pow_increases(256, k, (len - 1) as nat);
    }
}

/// Zero bytes in front do not change the number.
pub proof fn lemma_zero_padded(data: Seq<u8>, width: nat)
    ensures
        be_value(zero_padded(data, width)) == be_value(data),
        zero_padded(data, width).len() == (if data.len() >= width {
            data.len()
        } else {
            width
        }),
    decreases data.len(),
{
    let padded = zero_padded(data, width);
    if data.len() < width {
        if data.len() == 0 {
            lemma_zeros(width);
            assert(padded =~= Seq::new(width, |i: int| 0u8));
        } else {
            lemma_zero_padded(data.drop_last(), (width - 1) as nat);
            assert(padded.drop_last() =~= zero_padded(data.drop_last(), (width - 1) as nat));
        }
    }
}

/// Zero bytes spell zero.
proof fn lemma_zeros(len: nat)
    ensures
        be_value(Seq::new(len, |i: int| 0u8)) == 0,
    decreases len,
{
    if len > 0 {
        lemma_zeros((len - 1) as nat);
        assert(Seq::new(len, |i: int| 0u8).drop_last() =~= Seq::new(
            (len - 1) as nat,
            |i: int| 0u8,
        ));
    }
}

/// Equally long strings that spell one number are equal.
pub proof fn lemma_be_value_injective(a: Seq<u8>, b: Seq<u8>)
    requires
        a.len() == b.len(),
        be_value(a) == be_value(b),
    ensures
        a == b,
    decreases a.len(),
{
    if a.len() > 0 {
        lemma_be_value_injective(a.drop_last(), b.drop_last());
        assert(a =~= a.drop_last().push(a.last()));
        assert(b =~= b.drop_last().push(b.last()));
    } else {
        assert(a =~= b);
    }
}

/// The number that a string spells, padded to the length of the string, is the string.
pub proof fn lemma_zero_padded_of_be_value(bytes: Seq<u8>)
    requires
        bytes.len() >= 1,
    ensures
        zero_padded(be_bytes(be_value(bytes)), bytes.len()) == bytes,
{
    let n = be_value(bytes);
    lemma_be_value_upper(bytes);
    lemma_be_bytes_len(n, bytes.len());
    lemma_be_value_of_be_bytes(n);
    lemma_zero_padded(be_bytes(n), bytes.len());
    lemma_be_value_injective(zero_padded(be_bytes(n), bytes.len()), bytes);
}

} // verus!

//! Trailing block-cipher padding: computing the bytes that fill the last
//! block before a symmetric encryption, and recognizing how many bytes of
//! a deciphered last block are padding.

use vstd::prelude::*;
use crate::rv::SC_ERROR_KEYPAD_MSG_TOO_LONG;

verus! {

/// The padding conventions the driver offers for symmetric operations.
pub const BLOCKCIPHER_PAD_TYPE_ZEROES: u8 = 0;
pub const BLOCKCIPHER_PAD_TYPE_ONEANDZEROES: u8 = 1;
pub const BLOCKCIPHER_PAD_TYPE_ONEANDZEROES_ACOS5_64: u8 = 2;
pub const BLOCKCIPHER_PAD_TYPE_PKCS7: u8 = 3;
pub const BLOCKCIPHER_PAD_TYPE_ANSIX9_23: u8 = 4;

/// A sequence of `n` copies of `b`.
pub open spec fn spec_repeat(b: u8, n: int) -> Seq<u8> {
    Seq::new(n as nat, |i: int| b)
}

/// The padding bytes appended to plaintext whose last block holds `rem`
/// bytes (`rem` is the plaintext length modulo the block size):
/// zero padding fills the open block with zeroes and adds nothing to a
/// full block; one-and-zeroes always adds 0x80 and fills up; the card
/// operating system's variant of it adds nothing to a full block; PKCS#7
/// fills with the pad length as the byte value; ANSI X9.23 fills with
/// zeroes and the pad length as the last byte.
pub open spec fn spec_padding(block_size: u8, padding_type: u8, rem: u8) -> Seq<u8> {
    if padding_type == BLOCKCIPHER_PAD_TYPE_ZEROES {
        if rem == 0 {
            Seq::empty()
        } else {
            spec_repeat(0x00, block_size - rem)
        }
    } else if padding_type == BLOCKCIPHER_PAD_TYPE_ONEANDZEROES {
        seq![0x80u8] + spec_repeat(0x00, block_size - rem - 1)
    } else if padding_type == BLOCKCIPHER_PAD_TYPE_ONEANDZEROES_ACOS5_64 {
        if rem == 0 {
            Seq::empty()
        } else {
            seq![0x80u8] + spec_repeat(0x00, block_size - rem - 1)
        }
    } else if padding_type == BLOCKCIPHER_PAD_TYPE_PKCS7 {
        spec_repeat((block_size - rem) as u8, block_size - rem)
    } else {
        spec_repeat(0x00, block_size - rem - 1) + seq![(block_size - rem) as u8]
    }
}

/// Pushes `n` copies of `b` onto `v`.
fn push_repeat(v: &mut Vec<u8>, b: u8, n: u8)
    ensures
        final(v)@ =~= old(v)@ + spec_repeat(b, n as int),
{
    let mut i: u8 = 0;
    while i < n
        invariant
            i <= n,
            v@ =~= old(v)@ + spec_repeat(b, i as int),
        decreases n - i,
    {
        v.push(b);
        assert(old(v)@ + spec_repeat(b, i as int) + seq![b] =~= old(v)@ + spec_repeat(
            b,
            i + 1 as int,
        ));
        i = i + 1;
    }
}

/// Computes the trailing padding for a last block holding `rem` bytes,
/// per `spec_padding`.
pub fn trailing_blockcipher_padding_calculate(block_size: u8, padding_type: u8, rem: u8) -> (r: Vec<
    u8,
>)
    requires
        rem < block_size,
        block_size == 16 || block_size == 8,
        padding_type == BLOCKCIPHER_PAD_TYPE_ZEROES || padding_type
            == BLOCKCIPHER_PAD_TYPE_ONEANDZEROES || padding_type
            == BLOCKCIPHER_PAD_TYPE_ONEANDZEROES_ACOS5_64 || padding_type
            == BLOCKCIPHER_PAD_TYPE_PKCS7 || padding_type == BLOCKCIPHER_PAD_TYPE_ANSIX9_23,
    ensures
        r@ =~= spec_padding(block_size, padding_type, rem),
{
    let mut vec: Vec<u8> = Vec::new();
    if padding_type == BLOCKCIPHER_PAD_TYPE_ZEROES {
        if rem != 0 {
            push_repeat(&mut vec, 0x00, block_size - rem);
        }
    } else if padding_type == BLOCKCIPHER_PAD_TYPE_ONEANDZEROES {
        vec.push(0x80);
        push_repeat(&mut vec, 0x00, block_size - rem - 1);
        assert(vec@ =~= seq![0x80u8] + spec_repeat(0x00, block_size - rem - 1));
    } else if padding_type == BLOCKCIPHER_PAD_TYPE_ONEANDZEROES_ACOS5_64 {
        if rem != 0 {
            vec.push(0x80);
            push_repeat(&mut vec, 0x00, block_size - rem - 1);
            assert(vec@ =~= seq![0x80u8] + spec_repeat(0x00, block_size - rem - 1));
        }
    } else if padding_type == BLOCKCIPHER_PAD_TYPE_PKCS7 {
        push_repeat(&mut vec, block_size - rem, block_size - rem);
    } else {
        push_repeat(&mut vec, 0x00, block_size - rem - 1);
        vec.push(block_size - rem);
        assert(vec@ =~= spec_repeat(0x00, block_size - rem - 1) + seq![(block_size - rem) as u8]);
    }
    vec
}

/// How many bytes at the end of `s` are zero.
pub open spec fn spec_trailing_zeros(s: Seq<u8>) -> int
    decreases s.len(),
{
    if s.len() == 0 || s.last() != 0 {
        0
    } else {
        1 + spec_trailing_zeros(s.drop_last())
    }
}

pub proof fn lemma_trailing_zeros_bounds(s: Seq<u8>)
    ensures
        0 <= spec_trailing_zeros(s) <= s.len(),
        forall|i: int| s.len() - spec_trailing_zeros(s) <= i < s.len() ==> s[i] == 0,
        spec_trailing_zeros(s) < s.len() ==> s[s.len() - spec_trailing_zeros(s) - 1] != 0,
    decreases s.len(),
{
    if s.len() == 0 || s.last() != 0 {
    } else {
        lemma_trailing_zeros_bounds(s.drop_last());
        assert forall|i: int| s.len() - spec_trailing_zeros(s) <= i < s.len() implies s[i]
            == 0 by {
            if i < s.len() - 1 {
                assert(s.drop_last()[i] == s[i]);
                assert(s.drop_last().len() - spec_trailing_zeros(s.drop_last()) <= i);
            }
        }
    }
}

/// How many trailing bytes of a deciphered last block are padding, per
/// convention:
/// zero padding counts the trailing zeroes and cannot mark a whole block;
/// one-and-zeroes counts the zeroes and the mandatory 0x80 before them;
/// the card operating system's variant answers zero (nothing removed)
/// wherever the block cannot be read as its padding, since plaintext is
/// allowed to fill the block exactly; PKCS#7 and ANSI X9.23 read the last
/// byte as the pad length and check the fill bytes.  A block that cannot
/// be read as the stated convention is refused.
pub open spec fn spec_padding_length(block_size: u8, padding_type: u8, s: Seq<u8>) -> Result<
    u8,
    i32,
> {
    if padding_type == BLOCKCIPHER_PAD_TYPE_ZEROES {
        let z = spec_trailing_zeros(s);
        if z == block_size {
            Err(SC_ERROR_KEYPAD_MSG_TOO_LONG)
        } else {
            Ok(z as u8)
        }
    } else if padding_type == BLOCKCIPHER_PAD_TYPE_ONEANDZEROES {
        let z = spec_trailing_zeros(s);
        if z == block_size {
            Err(SC_ERROR_KEYPAD_MSG_TOO_LONG)
        } else if s[s.len() - z - 1] != 0x80 {
            Err(SC_ERROR_KEYPAD_MSG_TOO_LONG)
        } else {
            Ok((z + 1) as u8)
        }
    } else if padding_type == BLOCKCIPHER_PAD_TYPE_ONEANDZEROES_ACOS5_64 {
        let z = spec_trailing_zeros(s);
        if s.last() != 0 && s.last() != 0x80 {
            Ok(0u8)
        } else if z == block_size {
            Ok(0u8)
        } else if s[s.len() - z - 1] != 0x80 {
            Ok(0u8)
        } else if z + 1 == block_size {
            Ok(0u8)
        } else {
            Ok((z + 1) as u8)
        }
    } else if padding_type == BLOCKCIPHER_PAD_TYPE_PKCS7 {
        let pad = s.last();
        if 1 <= pad <= block_size && (forall|j: int|
            s.len() - pad <= j < s.len() ==> s[j] == pad) {
            Ok(pad)
        } else {
            Err(SC_ERROR_KEYPAD_MSG_TOO_LONG)
        }
    } else if padding_type == BLOCKCIPHER_PAD_TYPE_ANSIX9_23 {
        let pad = s.last();
        if 1 <= pad <= block_size && (forall|j: int|
            s.len() - pad <= j < s.len() - 1 ==> s[j] == 0) {
            Ok(pad)
        } else {
            Err(SC_ERROR_KEYPAD_MSG_TOO_LONG)
        }
    } else {
        Err(SC_ERROR_KEYPAD_MSG_TOO_LONG)
    }
}

/// Counts the trailing zero bytes of the block.
fn trailing_zeros(s: &[u8]) -> (r: usize)
    ensures
        r == spec_trailing_zeros(s@),
{
    proof {
        lemma_trailing_zeros_bounds(s@);
    }
    let mut i: usize = s.len();
    assert(s@.take(s@.len() as int) =~= s@);
    loop
        invariant
            i <= s@.len(),
            spec_trailing_zeros(s@) == (s@.len() - i) + spec_trailing_zeros(s@.take(i as int)),
            forall|k: int| i <= k < s@.len() ==> s@[k] == 0,
        ensures
            i + spec_trailing_zeros(s@) == s@.len() || (i >= 1 && s@[i - 1] != 0 && s@.len() - i
                == spec_trailing_zeros(s@)),
        decreases i,
    {
        proof {
            assert(s@.take(s@.len() as int) =~= s@);
        }
        if i == 0 {
            assert(spec_trailing_zeros(s@.take(0)) == 0);
            break;
        }
        if s[i - 1] != 0 {
            assert(s@.take(i as int).last() != 0);
            assert(spec_trailing_zeros(s@.take(i as int)) == 0);
            break;
        }
        proof {
            assert(s@.take(i as int).last() == 0);
            assert(s@.take(i as int).drop_last() =~= s@.take(i - 1));
        }
        i = i - 1;
    }
    s.len() - i
}

/// Reads how many trailing bytes of the block are padding, per
/// `spec_padding_length`.
pub fn trailing_blockcipher_padding_get_length(
    block_size: u8,
    padding_type: u8,
    last_block_values: &[u8],
) -> (r: Result<u8, i32>)
    requires
        last_block_values@.len() == block_size,
        block_size >= 1,
    ensures
        r == spec_padding_length(block_size, padding_type, last_block_values@),
{
    proof {
        lemma_trailing_zeros_bounds(last_block_values@);
    }
    if padding_type == BLOCKCIPHER_PAD_TYPE_ZEROES {
        let z: usize = trailing_zeros(last_block_values);
        if z == block_size as usize {
            Err(SC_ERROR_KEYPAD_MSG_TOO_LONG)
        } else {
            Ok(z as u8)
        }
    } else if padding_type == BLOCKCIPHER_PAD_TYPE_ONEANDZEROES {
        let z: usize = trailing_zeros(last_block_values);
        if z == block_size as usize {
            Err(SC_ERROR_KEYPAD_MSG_TOO_LONG)
        } else if last_block_values[last_block_values.len() - z - 1] != 0x80 {
            Err(SC_ERROR_KEYPAD_MSG_TOO_LONG)
        } else {
            Ok((z + 1) as u8)
        }
    } else if padding_type == BLOCKCIPHER_PAD_TYPE_ONEANDZEROES_ACOS5_64 {
        let last: u8 = last_block_values[last_block_values.len() - 1];
        if last != 0 && last != 0x80 {
            return Ok(0);
        }
        let z: usize = trailing_zeros(last_block_values);
        if z == block_size as usize {
            Ok(0)
        } else if last_block_values[last_block_values.len() - z - 1] != 0x80 {
            Ok(0)
        } else if z + 1 == block_size as usize {
            Ok(0)
        } else {
            Ok((z + 1) as u8)
        }
    } else if padding_type == BLOCKCIPHER_PAD_TYPE_PKCS7 {
        let pad: u8 = last_block_values[last_block_values.len() - 1];
        if pad < 1 || pad > block_size {
            return Err(SC_ERROR_KEYPAD_MSG_TOO_LONG);
        }
        let mut j: usize = last_block_values.len() - pad as usize;
        while j < last_block_values.len()
            invariant
                padding_type == BLOCKCIPHER_PAD_TYPE_PKCS7,
                last_block_values@.len() == block_size,
                last_block_values@.len() - pad <= j <= last_block_values@.len(),
                1 <= pad <= block_size,
                pad == last_block_values@.last(),
                forall|k: int| last_block_values@.len() - pad <= k < j ==> last_block_values@[k]
                    == pad,
            decreases last_block_values@.len() - j,
        {
            if last_block_values[j] != pad {
                proof {
                    let sv = last_block_values@;
                    if forall|k: int| sv.len() - sv.last() <= k < sv.len() ==> sv[k] == sv.last() {
                        assert(sv[j as int] == sv.last());
                    }
                }
                return Err(SC_ERROR_KEYPAD_MSG_TOO_LONG);
            }
            j = j + 1;
        }
        Ok(pad)
    } else if padding_type == BLOCKCIPHER_PAD_TYPE_ANSIX9_23 {
        let pad: u8 = last_block_values[last_block_values.len() - 1];
        if pad < 1 || pad > block_size {
            return Err(SC_ERROR_KEYPAD_MSG_TOO_LONG);
        }
        let mut j: usize = last_block_values.len() - pad as usize;
        while j < last_block_values.len() - 1
            invariant
                padding_type == BLOCKCIPHER_PAD_TYPE_ANSIX9_23,
                last_block_values@.len() == block_size,
                last_block_values@.len() - pad <= j <= last_block_values@.len() - 1,
                1 <= pad <= block_size,
                pad == last_block_values@.last(),
                forall|k: int| last_block_values@.len() - pad <= k < j ==> last_block_values@[k]
                    == 0,
            decreases last_block_values@.len() - j,
        {
            if last_block_values[j] != 0 {
                proof {
                    let sv = last_block_values@;
                    if forall|k: int| sv.len() - sv.last() <= k < sv.len() - 1 ==> sv[k] == 0 {
                        assert(sv[j as int] == 0);
                    }
                }
                return Err(SC_ERROR_KEYPAD_MSG_TOO_LONG);
            }
            j = j + 1;
        }
        Ok(pad)
    } else {
        Err(SC_ERROR_KEYPAD_MSG_TOO_LONG)
    }
}

} // verus!

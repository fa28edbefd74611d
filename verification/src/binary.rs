//! The binary codec: pure conversions between wire bytes and semantic coil
//! or register value sequences.
//!
//! Bits are packed LSB-first within each byte; 16-bit register words travel
//! in big-endian byte order.

use vstd::prelude::*;

use crate::{Coil, Error, Reason};

verus! {

// --- big-endian 16-bit words ---

/// The high (first on the wire) byte of a 16-bit word.
pub open spec fn hi_byte(w: u16) -> u8 {
    (w >> 8) as u8
}

/// The low (second on the wire) byte of a 16-bit word.
pub open spec fn lo_byte(w: u16) -> u8 {
    (w & 0xff) as u8
}

/// The 16-bit word with high byte `hi` and low byte `lo`.
pub open spec fn word_from_bytes(hi: u8, lo: u8) -> u16 {
    ((hi as u16) << 8) | (lo as u16)
}

/// Splitting a word into its two bytes and joining two bytes into a word
/// are inverse to each other.
pub proof fn lemma_word_bytes_inverse(hi: u8, lo: u8, w: u16)
    ensures
        word_from_bytes(hi_byte(w), lo_byte(w)) == w,
        hi_byte(word_from_bytes(hi, lo)) == hi,
        lo_byte(word_from_bytes(hi, lo)) == lo,
{
    assert(word_from_bytes(hi_byte(w), lo_byte(w)) == w) by (bit_vector);
    assert(hi_byte(word_from_bytes(hi, lo)) == hi) by (bit_vector);
    assert(lo_byte(word_from_bytes(hi, lo)) == lo) by (bit_vector);
}

/// Join two bytes into the 16-bit word they encode big-endian.
pub(crate) fn be_u16(hi: u8, lo: u8) -> (w: u16)
    ensures
        w == word_from_bytes(hi, lo),
{
    ((hi as u16) << 8) | (lo as u16)
}

// --- bit packing ---

/// Bit `i` of a packed byte sequence, LSB-first within each byte.
pub open spec fn bit_of(bytes: Seq<u8>, i: int) -> bool {
    (bytes[i / 8] >> ((i % 8) as u8)) & 1 == 1
}

/// The coil denoted by one bit: set means `On`.
pub open spec fn coil_from_bit(b: bool) -> Coil {
    if b {
        Coil::On
    } else {
        Coil::Off
    }
}

/// The first `count` bits of a packed byte sequence, as coils.
pub open spec fn spec_unpack_bits(bytes: Seq<u8>, count: nat) -> Seq<Coil> {
    Seq::new(count, |i: int| coil_from_bit(bit_of(bytes, i)))
}

/// How many bytes hold `count` packed bits.
pub open spec fn packed_bits_len(count: nat) -> nat {
    count / 8 + if count % 8 > 0 {
        1nat
    } else {
        0nat
    }
}

/// Read `count` coils out of a packed byte buffer: bit `i` of the input
/// (LSB-first within each byte) becomes `Coil::On` if set, else `Off`.
///
/// The caller must supply enough bytes to cover all `count` bits; the reply
/// length checks of the transport guarantee this before decoding.
pub fn unpack_bits(bytes: &[u8], count: u16) -> (r: Vec<Coil>)
    requires
        packed_bits_len(count as nat) <= bytes@.len(),
    ensures
        r@ == spec_unpack_bits(bytes@, count as nat),
{
    let mut res: Vec<Coil> = Vec::new();
    let mut i: u16 = 0;
    while i < count
        invariant
            i <= count,
            packed_bits_len(count as nat) <= bytes@.len(),
            res@ == spec_unpack_bits(bytes@, i as nat),
        decreases count - i,
    {
        let b: u8 = bytes[(i / 8) as usize];
        let sh: u8 = (i % 8) as u8;
        let bit: u8 = (b >> sh) & 0b1;
        proof {
            assert((b >> sh) & 1 < 2) by (bit_vector);
        }
        if bit > 0 {
            res.push(Coil::On);
        } else {
            res.push(Coil::Off);
        }
        proof {
            assert(res@ =~= spec_unpack_bits(bytes@, (i + 1) as nat));
        }
        i = i + 1;
    }
    res
}

/// Pack coils into bytes, LSB-first within each byte; the output holds
/// exactly `ceil(len / 8)` bytes and unset trailing bits are zero.
///
/// The last clause of the contract states the round trip: unpacking the
/// result at the input's length gives back the input, for any coil sequence.
pub fn pack_bits(bits: &[Coil]) -> (r: Vec<u8>)
    ensures
        r@.len() == packed_bits_len(bits@.len()),
        forall|i: int| 0 <= i < bits@.len() ==> bit_of(r@, i) == (bits@[i] is On),
        forall|i: int| bits@.len() <= i < 8 * r@.len() ==> !bit_of(r@, i),
        spec_unpack_bits(r@, bits@.len()) == bits@,
{
    let bitcount = bits.len();
    let packed_size = bitcount / 8 + if bitcount % 8 > 0 {
        1
    } else {
        0
    };
    let mut res: Vec<u8> = Vec::new();
    while res.len() < packed_size
        invariant
            res@.len() <= packed_size,
            forall|j: int| 0 <= j < res@.len() ==> res@[j] == 0u8,
        decreases packed_size - res@.len(),
    {
        res.push(0);
    }
    proof {
        assert forall|j: int| 0 <= j < 8 * res@.len() implies !bit_of(res@, j) by {
            assert(res@[j / 8] == 0u8);
            let sh = (j % 8) as u8;
            assert((0u8 >> sh) & 1 != 1) by (bit_vector);
        }
    }
    let mut i: usize = 0;
    while i < bitcount
        invariant
            i <= bitcount,
            bitcount == bits@.len(),
            res@.len() == packed_size,
            packed_size == packed_bits_len(bits@.len()),
            forall|j: int| 0 <= j < i ==> bit_of(res@, j) == (bits@[j] is On),
            forall|j: int| i <= j < 8 * res@.len() ==> !bit_of(res@, j),
        decreases bitcount - i,
    {
        let v: u8 = match bits[i] {
            Coil::On => 1,
            Coil::Off => 0,
        };
        let idx = i / 8;
        let sh: u8 = (i % 8) as u8;
        let prev: u8 = res[idx];
        let ghost pre = res@;
        let next: u8 = prev | (v << sh);
        res[idx] = next;
        proof {
            assert(idx as int == i as int / 8 && sh == ((i as int) % 8) as u8);
            assert(!bit_of(pre, i as int));
            assert((prev >> sh) & 1 != 1);
            assert forall|j: int| 0 <= j < 8 * res@.len() implies #[trigger] bit_of(res@, j) == (
            if j == i {
                v == 1
            } else {
                bit_of(pre, j)
            }) by {
                let k = (j % 8) as u8;
                if j / 8 == idx {
                    assert(res@[j / 8] == next && pre[j / 8] == prev);
                    if j == i {
                        assert(sh < 8 && v < 2 && (prev >> sh) & 1 != 1 ==> ((((prev | (v << sh))
                            >> sh) & 1 == 1) == (v == 1))) by (bit_vector);
                    } else {
                        assert(j == 8 * (j / 8) + j % 8 && i == 8 * (i as int / 8) + i as int % 8);
                        assert(k != sh);
                        assert(sh < 8 && k < 8 && k != sh && v < 2 ==> (((prev | (v << sh)) >> k)
                            & 1 == (prev >> k) & 1)) by (bit_vector);
                    }
                } else {
                    assert(res@[j / 8] == pre[j / 8]);
                }
            }
            assert((bits@[i as int] is On) <==> v == 1);
        }
        i = i + 1;
    }
    proof {
        assert(spec_unpack_bits(res@, bits@.len()) =~= bits@) by {
            assert forall|j: int| 0 <= j < bits@.len() implies spec_unpack_bits(
                res@,
                bits@.len(),
            )[j] == bits@[j] by {
                match bits@[j] {
                    Coil::On => {},
                    Coil::Off => {},
                }
            }
        }
    }
    res
}

// --- word packing ---

/// The bytes of a word sequence, each word split big-endian.
pub open spec fn bytes_of_words(words: Seq<u16>) -> Seq<u8> {
    Seq::new(
        2 * words.len(),
        |i: int|
            if i % 2 == 0 {
                hi_byte(words[i / 2])
            } else {
                lo_byte(words[i / 2])
            },
    )
}

/// The words of a byte-aligned byte sequence, two bytes each, big-endian.
pub open spec fn words_of_bytes(bytes: Seq<u8>) -> Seq<u16> {
    Seq::new(bytes.len() / 2, |i: int| word_from_bytes(bytes[2 * i], bytes[2 * i + 1]))
}

/// Split each 16-bit word into two bytes, high byte first; the output holds
/// exactly twice as many bytes as there are input words.
///
/// The last clause of the contract states the round trip: re-packing the
/// result gives back the input, for any word sequence.
pub fn unpack_bytes(data: &[u16]) -> (r: Vec<u8>)
    ensures
        r@ == bytes_of_words(data@),
        words_of_bytes(r@) == data@,
{
    let mut res: Vec<u8> = Vec::new();
    let mut i: usize = 0;
    while i < data.len()
        invariant
            i <= data@.len(),
            res@.len() == 2 * i,
            forall|j: int|
                0 <= j < i ==> res@[2 * j] == hi_byte(data@[j]) && res@[2 * j + 1] == lo_byte(
                    data@[j],
                ),
        decreases data@.len() - i,
    {
        let w = data[i];
        res.push((w >> 8) as u8);
        res.push((w & 0xff) as u8);
        i = i + 1;
    }
    proof {
        assert(res@ =~= bytes_of_words(data@)) by {
            assert forall|k: int| 0 <= k < 2 * data@.len() implies res@[k] == bytes_of_words(
                data@,
            )[k] by {
                if k % 2 == 0 {
                    assert(2 * (k / 2) == k);
                } else {
                    assert(2 * (k / 2) + 1 == k);
                }
            }
        }
        assert(words_of_bytes(res@) =~= data@) by {
            assert forall|j: int| 0 <= j < data@.len() implies words_of_bytes(res@)[j]
                == data@[j] by {
                lemma_word_bytes_inverse(0, 0, data@[j]);
            }
        }
    }
    res
}

/// Pack a byte-aligned buffer into 16-bit words, two bytes at a time,
/// big-endian.  An odd-length input always fails with `BytecountNotEven`;
/// nothing is silently truncated.
pub fn pack_bytes(bytes: &[u8]) -> (r: Result<Vec<u16>, Error>)
    ensures
        bytes@.len() % 2 == 0 ==> (r matches Ok(words) && words@ == words_of_bytes(bytes@)
            && bytes_of_words(words@) == bytes@),
        bytes@.len() % 2 != 0 ==> (r matches Err(e) && e == Error::InvalidData(
            Reason::BytecountNotEven,
        )),
{
    let size = bytes.len();
    if size % 2 != 0 {
        return Err(Error::InvalidData(Reason::BytecountNotEven));
    }
    let mut res: Vec<u16> = Vec::new();
    let mut j: usize = 0;
    while j < size / 2
        invariant
            j <= size / 2,
            size == bytes@.len(),
            size % 2 == 0,
            res@.len() == j,
            forall|k: int|
                0 <= k < j ==> res@[k] == word_from_bytes(bytes@[2 * k], bytes@[2 * k + 1]),
        decreases size / 2 - j,
    {
        let w = be_u16(bytes[2 * j], bytes[2 * j + 1]);
        res.push(w);
        j = j + 1;
    }
    proof {
        assert(res@ =~= words_of_bytes(bytes@));
        assert(bytes_of_words(res@) =~= bytes@) by {
            assert forall|k: int| 0 <= k < 2 * res@.len() implies bytes_of_words(res@)[k]
                == bytes@[k] by {
                lemma_word_bytes_inverse(bytes@[2 * (k / 2)], bytes@[2 * (k / 2) + 1], 0);
                if k % 2 == 0 {
                    assert(2 * (k / 2) == k);
                } else {
                    assert(2 * (k / 2) + 1 == k);
                }
            }
        }
    }
    Ok(res)
}

} // verus!

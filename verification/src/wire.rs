//! Protocol words: the 32-bit values that Wayland arrays and X11 property
//! values carry, all in the machine's one byte order.

use vstd::prelude::*;

verus! {

/// The little-endian value of four bytes.
pub open spec fn le_word(b: Seq<u8>) -> u32 {
    (b[0] as int + 256 * (b[1] as int) + 65536 * (b[2] as int) + 16777216 * (b[3] as int)) as u32
}

/// The big-endian value of four bytes.
pub open spec fn be_word(b: Seq<u8>) -> u32 {
    (b[3] as int + 256 * (b[2] as int) + 65536 * (b[1] as int) + 16777216 * (b[0] as int)) as u32
}

/// The value of four bytes in the given byte order.
pub open spec fn word_of(b: Seq<u8>, little_endian: bool) -> u32 {
    if little_endian {
        le_word(b)
    } else {
        be_word(b)
    }
}

/// The 32-bit words of `bytes` in the given byte order; trailing bytes that
/// do not fill a word are ignored.
pub open spec fn words_in_order(bytes: Seq<u8>, little_endian: bool) -> Seq<u32> {
    Seq::new(
        (bytes.len() / 4) as nat,
        |k: int| word_of(bytes.subrange(4 * k, 4 * k + 4), little_endian),
    )
}

/// Whether `words` are the 32-bit words of `bytes` read in one byte order,
/// the same for every word.
pub open spec fn words_in_one_order(bytes: Seq<u8>, words: Seq<u32>) -> bool {
    exists|little_endian: bool| words == #[trigger] words_in_order(bytes, little_endian)
}

/// A 32-bit word in the machine's byte order (`u32::from_ne_bytes`): the
/// little-endian or the big-endian value of the bytes, as the machine is.
#[verifier::external_body]
fn u32_from_ne_bytes(b: [u8; 4]) -> (r: u32)
    ensures
        r == le_word(b@) || r == be_word(b@),
{
    u32::from_ne_bytes(b)
}

/// Whether the machine stores words little-endian: whether it reads the
/// bytes `[1, 0, 0, 0]` as one. The machine's byte order is not known to the
/// proofs, so nothing is said of the answer.
fn machine_is_little_endian() -> bool {
    let probe: [u8; 4] = [1, 0, 0, 0];
    let w = u32_from_ne_bytes(probe);
    w == 1
}

/// The value of the four bytes `b0, b1, b2, b3` in the given byte order.
pub fn word_from_bytes(b0: u8, b1: u8, b2: u8, b3: u8, little_endian: bool) -> (r: u32)
    ensures
        r == word_of(seq![b0, b1, b2, b3], little_endian),
{
    let (w0, w1, w2, w3) = if little_endian {
        (b0 as u32, b1 as u32, b2 as u32, b3 as u32)
    } else {
        (b3 as u32, b2 as u32, b1 as u32, b0 as u32)
    };
    w0 + 256 * w1 + 65536 * w2 + 16777216 * w3
}

/// The 32-bit words of a protocol array or property value in the given
/// byte order; trailing bytes that do not fill a word are ignored.
pub fn extract_words_in_order(bytes: &[u8], little_endian: bool) -> (r: Vec<u32>)
    ensures
        r@ == words_in_order(bytes@, little_endian),
{
    let mut words: Vec<u32> = Vec::new();
    let mut i: usize = 0;
    let len = bytes.len();
    let n = len / 4;
    while i < n
        invariant
            len == bytes@.len(),
            n == bytes@.len() / 4,
            i <= n,
            words@.len() == i,
            forall|k: int|
                0 <= k < i ==> #[trigger] words@[k] == word_of(
                    bytes@.subrange(4 * k, 4 * k + 4),
                    little_endian,
                ),
        decreases n - i,
    {
        assert(4 * i + 4 <= bytes@.len()) by (nonlinear_arith)
            requires
                i < n,
                n == bytes@.len() / 4,
        ;
        assert(4 * i + 4 <= len);
        let w = word_from_bytes(
            bytes[4 * i],
            bytes[4 * i + 1],
            bytes[4 * i + 2],
            bytes[4 * i + 3],
            little_endian,
        );
        proof {
            assert(seq![bytes@[4 * i], bytes@[4 * i + 1], bytes@[4 * i + 2], bytes@[4 * i + 3]]
                =~= bytes@.subrange(4 * i, 4 * i + 4));
        }
        words.push(w);
        i = i + 1;
    }
    proof {
        assert(words@ =~= words_in_order(bytes@, little_endian));
    }
    words
}

/// The 32-bit words of a protocol array or property value, all in the
/// machine's byte order; trailing bytes that do not fill a word are ignored.
pub fn extract_words(bytes: &[u8]) -> (r: Vec<u32>)
    ensures
        words_in_one_order(bytes@, r@),
{
    let little_endian = machine_is_little_endian();
    let r = extract_words_in_order(bytes, little_endian);
    proof {
        assert(r@ == words_in_order(bytes@, little_endian));
    }
    r
}

} // verus!

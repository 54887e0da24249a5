//! Words as the bytes that the GPU reads.
use vstd::prelude::*;

verus! {

/// The byte of `x` that weighs 256 to the power `k`, for `k` from 0 to 3.
pub open spec fn byte_of(x: u32, k: int) -> u8 {
    if k == 0 {
        (x % 0x100) as u8
    } else if k == 1 {
        (x / 0x100 % 0x100) as u8
    } else if k == 2 {
        (x / 0x1_0000 % 0x100) as u8
    } else {
        (x / 0x100_0000) as u8
    }
}

/// The bytes of 32-bit words, one word after the other, each with its most significant byte
/// first if `big` and last otherwise.
pub open spec fn word_bytes(words: Seq<u32>, big: bool) -> Seq<u8> {
    Seq::new(
        4 * words.len(),
        |i: int|
            byte_of(
                words[i / 4],
                if big {
                    3 - i % 4
                } else {
                    i % 4
                },
            ),
    )
}

/// The bytes of 16-bit words, laid out in the same way.
pub open spec fn half_bytes(halves: Seq<u16>, big: bool) -> Seq<u8> {
    Seq::new(
        2 * halves.len(),
        |i: int|
            byte_of(
                halves[i / 2] as u32,
                if big {
                    1 - i % 2
                } else {
                    i % 2
                },
            ),
    )
}

/// The bytes of `words` in memory, by `bytemuck::cast_slice`. Each word takes four bytes, in the
/// byte order of the machine, the same for all words; which of the two orders that is, is not
/// stated.
#[verifier::external_body]
fn cast_words(words: &[u32]) -> (r: Vec<u8>)
    ensures
        r@ == word_bytes(words@, false) || r@ == word_bytes(words@, true),
{
    bytemuck::cast_slice::<u32, u8>(words).to_vec()
}

/// The bytes of `halves` in memory, by `bytemuck::cast_slice`. Each takes two bytes, in the byte
/// order of the machine, the same for all; which of the two orders that is, is not stated.
#[verifier::external_body]
fn cast_halves(halves: &[u16]) -> (r: Vec<u8>)
    ensures
        r@ == half_bytes(halves@, false) || r@ == half_bytes(halves@, true),
{
    bytemuck::cast_slice::<u16, u8>(halves).to_vec()
}

/// The contents of a buffer of 32-bit words, in the machine's byte order.
pub fn buffer_bytes(words: &Vec<u32>) -> (r: Vec<u8>)
    ensures
        r.len() == 4 * words.len(),
        r@ == word_bytes(words@, false) || r@ == word_bytes(words@, true),
{
    cast_words(words.as_slice())
}

/// The contents of a buffer of 16-bit indices, in the machine's byte order.
pub fn index_bytes(indices: &Vec<u16>) -> (r: Vec<u8>)
    ensures
        r.len() == 2 * indices.len(),
        r@ == half_bytes(indices@, false) || r@ == half_bytes(indices@, true),
{
    cast_halves(indices.as_slice())
}

/// The four bytes of a word give it back.
pub proof fn lemma_bytes_give_word(x: u32)
    ensures
        x == byte_of(x, 0) + 0x100 * byte_of(x, 1) + 0x1_0000 * byte_of(x, 2) + 0x100_0000
            * byte_of(x, 3),
{
    assert(x == x % 0x100 + 0x100 * (x / 0x100 % 0x100) + 0x1_0000 * (x / 0x1_0000 % 0x100)
        + 0x100_0000 * (x / 0x100_0000)) by (nonlinear_arith);
    assert(x / 0x100_0000 < 0x100) by (nonlinear_arith);
}

/// Two buffers of words with the same bytes hold the same words: nothing is lost on the way to
/// the GPU.
pub proof fn law_bytes_determine_words(a: Seq<u32>, b: Seq<u32>, big: bool)
    requires
        word_bytes(a, big) == word_bytes(b, big),
    ensures
        a == b,
{
    let (x, y) = (word_bytes(a, big), word_bytes(b, big));
    assert(x.len() == 4 * a.len() && y.len() == 4 * b.len());
    assert forall|i: int| 0 <= i < a.len() implies a[i] == b[i] by {
        assert(x[4 * i] == y[4 * i]);
        assert(x[4 * i + 1] == y[4 * i + 1]);
        assert(x[4 * i + 2] == y[4 * i + 2]);
        assert(x[4 * i + 3] == y[4 * i + 3]);
        assert((4 * i) / 4 == i && (4 * i) % 4 == 0);
        assert((4 * i + 1) / 4 == i && (4 * i + 1) % 4 == 1);
        assert((4 * i + 2) / 4 == i && (4 * i + 2) % 4 == 2);
        assert((4 * i + 3) / 4 == i && (4 * i + 3) % 4 == 3);
        lemma_bytes_give_word(a[i]);
        lemma_bytes_give_word(b[i]);
    }
    assert(a =~= b);
}

/// The four bytes from `at` on, each weighed by its place, make up the word: the first weighs most
/// if `big`, and least otherwise.
pub open spec fn spells(bytes: Seq<u8>, at: int, word: u32, big: bool) -> bool {
    let (a, b, c, d) = (bytes[at], bytes[at + 1], bytes[at + 2], bytes[at + 3]);
    word == if big {
        0x100_0000 * a + 0x1_0000 * b + 0x100 * c + d
    } else {
        a + 0x100 * b + 0x1_0000 * c + 0x100_0000 * d
    }
}

/// The bytes spell the words one after the other, all in the same order of bytes, and nothing else.
pub open spec fn spelled(bytes: Seq<u8>, words: Seq<u32>, big: bool) -> bool {
    &&& bytes.len() == 4 * words.len()
    &&& forall|i: int| 0 <= i < words.len() ==> spells(bytes, 4 * i, #[trigger] words[i], big)
}

/// Every word is spelled by its own four bytes, in either order of bytes, and there are no others.
pub proof fn law_bytes_spell_words(words: Seq<u32>, big: bool)
    ensures
        spelled(word_bytes(words, big), words, big),
{
    let bytes = word_bytes(words, big);
    assert forall|i: int| 0 <= i < words.len() implies spells(
        bytes,
        4 * i,
        #[trigger] words[i],
        big,
    ) by {
        assert((4 * i) / 4 == i && (4 * i) % 4 == 0);
        assert((4 * i + 1) / 4 == i && (4 * i + 1) % 4 == 1);
        assert((4 * i + 2) / 4 == i && (4 * i + 2) % 4 == 2);
        assert((4 * i + 3) / 4 == i && (4 * i + 3) % 4 == 3);
        lemma_bytes_give_word(words[i]);
    }
}

/// Every half word is spelled by its own two bytes, in either order of bytes, and there are no
/// others.
pub proof fn law_bytes_spell_halves(halves: Seq<u16>, i: int)
    requires
        0 <= i < halves.len(),
    ensures
        half_bytes(halves, false).len() == 2 * halves.len(),
        half_bytes(halves, true).len() == 2 * halves.len(),
        halves[i] == half_bytes(halves, false)[2 * i] + 0x100 * half_bytes(halves, false)[2 * i + 1],
        halves[i] == 0x100 * half_bytes(halves, true)[2 * i] + half_bytes(halves, true)[2 * i + 1],
{
    assert((2 * i) / 2 == i && (2 * i) % 2 == 0);
    assert((2 * i + 1) / 2 == i && (2 * i + 1) % 2 == 1);
}

/// A buffer spells its words one after the other, all in the same order of bytes. A buffer of
/// indices has two bytes for each.
pub proof fn law_buffer_spells_words(
    words: Vec<u32>,
    bytes: Vec<u8>,
    indices: Vec<u16>,
    index_buffer: Vec<u8>,
)
    requires
        call_ensures(buffer_bytes, (&words,), bytes),
        call_ensures(index_bytes, (&indices,), index_buffer),
    ensures
        spelled(bytes@, words@, false) || spelled(bytes@, words@, true),
        index_buffer.len() == 2 * indices.len(),
        (forall|i: int|
            0 <= i < indices.len() ==> #[trigger] indices@[i] == index_buffer@[2 * i] + 0x100
                * index_buffer@[2 * i + 1]) || (forall|i: int|
            0 <= i < indices.len() ==> #[trigger] indices@[i] == 0x100 * index_buffer@[2 * i]
                + index_buffer@[2 * i + 1]),
{
    law_bytes_spell_words(words@, false);
    law_bytes_spell_words(words@, true);
    assert forall|i: int| 0 <= i < indices.len() implies #[trigger] indices@[i] == half_bytes(
        indices@,
        false,
    )[2 * i] + 0x100 * half_bytes(indices@, false)[2 * i + 1] && indices@[i] == 0x100 * half_bytes(
        indices@,
        true,
    )[2 * i] + half_bytes(indices@, true)[2 * i + 1] by {
        law_bytes_spell_halves(indices@, i);
    }
}

} // verus!

//! Compiled shaders: words to bytes for the file, bytes to words for the driver.
use crate::bytes::{byte_of, word_bytes};
#[allow(unused_imports)]
use crate::bytes::{law_bytes_spell_words, lemma_bytes_give_word, spelled, spells};
use vstd::prelude::*;

verus! {

/// The word that every SPIR-V module starts with.
pub const SPIRV_MAGIC: u32 = 0x0723_0203;

/// Why bytes are not a SPIR-V module.
#[derive(Clone, Copy, Debug, PartialEq, Eq, Structural)]
pub enum SpirvError {
    /// The length is not a whole number of words.
    PartialWord,
    /// The first word is missing, or is not the magic word in either byte order.
    MissingMagic,
}

/// An error of the standard library's readers.
#[verifier::external_type_specification]
#[verifier::external_body]
pub struct ExIoError(std::io::Error);

/// The four bytes at word `i`, read with the most significant one first if `big`.
pub open spec fn word_at(bytes: Seq<u8>, i: int, big: bool) -> int {
    if big {
        bytes[4 * i + 3] + 0x100 * bytes[4 * i + 2] + 0x1_0000 * bytes[4 * i + 1] + 0x100_0000
            * bytes[4 * i]
    } else {
        bytes[4 * i] + 0x100 * bytes[4 * i + 1] + 0x1_0000 * bytes[4 * i + 2] + 0x100_0000
            * bytes[4 * i + 3]
    }
}

/// The bytes hold whole words, the first of which is the magic word in the given byte order.
pub open spec fn is_module(bytes: Seq<u8>, big: bool) -> bool {
    &&& bytes.len() % 4 == 0
    &&& bytes.len() > 0
    &&& word_at(bytes, 0, big) == SPIRV_MAGIC
}

/// `words` are those that `bytes` hold in the given byte order.
pub open spec fn holds_words(bytes: Seq<u8>, big: bool, words: Seq<u32>) -> bool {
    &&& 4 * words.len() == bytes.len()
    &&& forall|i: int| 0 <= i < words.len() ==> #[trigger] words[i] == word_at(bytes, i, big)
}

/// Decodes a SPIR-V module by `ash::util::read_spv`: the words in the byte order in which the
/// first one is the magic word, and an error if there is no such order or a word is incomplete.
#[verifier::external_body]
fn read_spv(bytes: &[u8]) -> (r: Result<Vec<u32>, std::io::Error>)
    ensures
        r is Ok <==> is_module(bytes@, false) || is_module(bytes@, true),
        r matches Ok(words) ==> (is_module(bytes@, false) && holds_words(bytes@, false, words@))
            || (is_module(bytes@, true) && holds_words(bytes@, true, words@)),
{
    ash::util::read_spv(&mut std::io::Cursor::new(bytes))
}

/// The words of a compiled shader, in whichever byte order it was written.
pub fn shader_words(bytes: &[u8]) -> (r: Result<Vec<u32>, SpirvError>)
    ensures
        match r {
            Ok(words) => (is_module(bytes@, false) && holds_words(bytes@, false, words@)) || (
            is_module(bytes@, true) && holds_words(bytes@, true, words@)),
            Err(SpirvError::PartialWord) => bytes@.len() % 4 != 0,
            Err(SpirvError::MissingMagic) => bytes@.len() % 4 == 0 && !is_module(bytes@, false)
                && !is_module(bytes@, true),
        },
{
    match read_spv(bytes) {
        Ok(words) => Ok(words),
        Err(_) => if bytes.len() % 4 != 0 {
            Err(SpirvError::PartialWord)
        } else {
            Err(SpirvError::MissingMagic)
        },
    }
}

/// The bytes that a compiled shader is stored as: its words, least significant byte first.
pub fn module_bytes(words: &Vec<u32>) -> (r: Vec<u8>)
    ensures
        r@ == word_bytes(words@, false),
{
    let mut r: Vec<u8> = Vec::new();
    let mut i: usize = 0;
    while i < words.len()
        invariant
            i <= words.len(),
            r@ == word_bytes(words@.take(i as int), false),
        decreases words.len() - i,
    {
        let x: u32 = words[i];
        r.push((x % 0x100) as u8);
        r.push((x / 0x100 % 0x100) as u8);
        r.push((x / 0x1_0000 % 0x100) as u8);
        r.push((x / 0x100_0000) as u8);
        proof {
            let (before, now) = (words@.take(i as int), words@.take(i + 1));
            let want = word_bytes(now, false);
            assert forall|j: int| 0 <= j < want.len() implies r@[j] == want[j] by {
                if j < 4 * i {
                    assert(before[j / 4] == now[j / 4]);
                    assert(want[j] == word_bytes(before, false)[j]);
                } else {
                    assert(j / 4 == i && j % 4 == j - 4 * i);
                }
            }
            assert(r@ =~= want);
        }
        i += 1;
    }
    proof {
        assert(words@.take(i as int) =~= words@);
    }
    r
}

/// What is written is read back: the bytes of a module decode to its words, and to no others.
pub proof fn law_read_gives_back_written(words: Seq<u32>, read: Seq<u32>, big: bool)
    requires
        words.len() > 0,
        words[0] == SPIRV_MAGIC,
    ensures
        is_module(word_bytes(words, false), false),
        !is_module(word_bytes(words, false), true),
        holds_words(word_bytes(words, false), false, words),
        is_module(word_bytes(words, false), big) && holds_words(
            word_bytes(words, false),
            big,
            read,
        ) ==> read == words,
{
    let bytes = word_bytes(words, false);
    assert forall|i: int| 0 <= i < words.len() implies words[i] == word_at(bytes, i, false) by {
        lemma_bytes_give_word(words[i]);
        assert((4 * i) / 4 == i && (4 * i) % 4 == 0);
        assert((4 * i + 1) / 4 == i && (4 * i + 1) % 4 == 1);
        assert((4 * i + 2) / 4 == i && (4 * i + 2) % 4 == 2);
        assert((4 * i + 3) / 4 == i && (4 * i + 3) % 4 == 3);
    }
    assert(word_at(bytes, 0, false) == SPIRV_MAGIC);
    assert(bytes[0] == 0x03 && bytes[1] == 0x02 && bytes[2] == 0x23 && bytes[3] == 0x07) by {
        assert(bytes[0] == byte_of(words[0], 0));
        assert(bytes[1] == byte_of(words[0], 1));
        assert(bytes[2] == byte_of(words[0], 2));
        assert(bytes[3] == byte_of(words[0], 3));
    }
    if is_module(bytes, big) && holds_words(bytes, big, read) {
        assert forall|i: int| 0 <= i < words.len() implies read[i] == words[i] by {
            assert(read[i] == word_at(bytes, i, false));
            assert(words[i] == word_at(bytes, i, false));
        }
        assert(read =~= words);
    }
}

/// A module is read back whole from the bytes that spell its words, in either order of bytes: the
/// first word tells which.
pub proof fn law_module_reads_in_either_order(
    bytes: &[u8],
    words: Seq<u32>,
    big: bool,
    r: Result<Vec<u32>, SpirvError>,
)
    requires
        spelled(bytes@, words, big),
        words.len() > 0,
        words[0] == 0x0723_0203,
        call_ensures(shader_words, (bytes,), r),
    ensures
        r matches Ok(read) && read@ == words,
{
    assert(spells(bytes@, 0, words[0], big));
    assert(is_module(bytes@, big));
    if let Ok(read) = r {
        assert forall|i: int| 0 <= i < words.len() implies read@[i] == words[i] by {
            assert(spells(bytes@, 4 * i, words[i], big));
        }
        assert(read@ =~= words);
    }
}

/// What is read is spelled by the bytes, and starts with the magic word; bytes that are no whole
/// number of words, or do not start with it in either order, are refused each in its own way.
pub proof fn law_only_modules_are_read(bytes: &[u8], r: Result<Vec<u32>, SpirvError>)
    requires
        call_ensures(shader_words, (bytes,), r),
    ensures
        r matches Ok(read) ==> {
            &&& read.len() > 0
            &&& read@[0] == 0x0723_0203
            &&& spelled(bytes@, read@, false) || spelled(bytes@, read@, true)
        },
        bytes@.len() % 4 != 0 <==> r == Err::<Vec<u32>, SpirvError>(SpirvError::PartialWord),
        bytes@.len() == 0 ==> r == Err::<Vec<u32>, SpirvError>(SpirvError::MissingMagic),
{
    if let Ok(read) = r {
        let big = !(is_module(bytes@, false) && holds_words(bytes@, false, read@));
        assert(holds_words(bytes@, big, read@));
        assert forall|i: int| 0 <= i < read.len() implies spells(
            bytes@,
            4 * i,
            #[trigger] read@[i],
            big,
        ) by {}
        assert(read@[0] == word_at(bytes@, 0, big));
    }
}

/// A stored module spells its words, least significant byte first.
pub proof fn law_stored_module_spells_words(words: Vec<u32>, bytes: Vec<u8>)
    requires
        call_ensures(module_bytes, (&words,), bytes),
    ensures
        spelled(bytes@, words@, false),
{
    law_bytes_spell_words(words@, false);
}

} // verus!

//! The time uniform of the hue-rotation shader: one 32-bit time value padded
//! to 16 bytes, the size WebGL asks of a uniform block.

use vstd::prelude::*;

verus! {

/// Number of 32-bit words in the time uniform: the time and three pad words.
pub const TIME_UNIFORM_WORDS: usize = 4;

/// Size in bytes of the time uniform, and so of the buffer that holds it.
pub const TIME_UNIFORM_SIZE: u64 = 16;

/// The bytes of a word, least significant first.
pub open spec fn le_bytes(w: u32) -> Seq<u8> {
    seq![
        (w % 0x100) as u8,
        ((w / 0x100) % 0x100) as u8,
        ((w / 0x1_0000) % 0x100) as u8,
        (w / 0x100_0000) as u8,
    ]
}

/// The bytes of a word, most significant first.
pub open spec fn be_bytes(w: u32) -> Seq<u8> {
    seq![
        (w / 0x100_0000) as u8,
        ((w / 0x1_0000) % 0x100) as u8,
        ((w / 0x100) % 0x100) as u8,
        (w % 0x100) as u8,
    ]
}

/// The bytes of one word in the given byte order.
pub open spec fn word_bytes(w: u32, little: bool) -> Seq<u8> {
    if little { le_bytes(w) } else { be_bytes(w) }
}

/// The in-memory bytes of a sequence of words stored one after another in
/// the given byte order.
pub open spec fn encode_words(words: Seq<u32>, little: bool) -> Seq<u8>
    decreases words.len(),
{
    if words.len() == 0 {
        Seq::empty()
    } else {
        encode_words(words.drop_last(), little) + word_bytes(words.last(), little)
    }
}

/// `bytes` is how a machine of either byte order stores `words` in memory.
pub open spec fn is_native_encoding(bytes: Seq<u8>, words: Seq<u32>) -> bool {
    bytes == encode_words(words, true) || bytes == encode_words(words, false)
}

/// The words of the time uniform: the bits of the time value, then zero padding.
pub open spec fn time_uniform_words(time_bits: u32) -> Seq<u32> {
    seq![time_bits, 0u32, 0u32, 0u32]
}

/// Word `i` of `words` occupies bytes `4 * i .. 4 * i + 4` of its encoding.
pub proof fn lemma_encode_words_layout(words: Seq<u32>, little: bool)
    ensures
        encode_words(words, little).len() == 4 * words.len(),
        forall|i: int, k: int|
            0 <= i < words.len() && 0 <= k < 4 ==> #[trigger] encode_words(words, little)[4 * i
                + k] == word_bytes(words[i], little)[k],
    decreases words.len(),
{
    if words.len() > 0 {
        let front = words.drop_last();
        lemma_encode_words_layout(front, little);
        assert forall|i: int, k: int|
            0 <= i < words.len() && 0 <= k < 4 implies #[trigger] encode_words(words, little)[4 * i
            + k] == word_bytes(words[i], little)[k] by {
            if i < words.len() - 1 {
                assert(words[i] == front[i]);
            }
        }
    }
}

/// The byte order of the machine the library runs on: `true` for
/// little-endian (x86, wasm32, most ARM), `false` for big-endian. Every Rust
/// target has exactly one byte order, fixed for the target; the logic fixes
/// this value once and for all but reveals neither order.
pub closed spec fn native_little_endian() -> bool {
    vstd::pervasive::arbitrary::<bool>()
}

/// The value of four bytes read as a word in the given byte order.
pub open spec fn decode_word(b: Seq<u8>, little: bool) -> int {
    if little {
        b[0] + 0x100 * b[1] + 0x1_0000 * b[2] + 0x100_0000 * b[3]
    } else {
        b[3] + 0x100 * b[2] + 0x1_0000 * b[1] + 0x100_0000 * b[0]
    }
}

/// Reading the four bytes of a word back in the same byte order gives the
/// word again.
pub proof fn lemma_word_bytes_decode(w: u32, little: bool)
    ensures
        word_bytes(w, little).len() == 4,
        decode_word(word_bytes(w, little), little) == w,
{
    assert((w % 0x100) + 0x100 * ((w / 0x100) % 0x100) + 0x1_0000 * ((w / 0x1_0000) % 0x100)
        + 0x100_0000 * (w / 0x100_0000) == w) by (bit_vector);
    assert(w / 0x100_0000 < 0x100) by (bit_vector);
}

/// The bytes of the time uniform as this machine stores them.
pub open spec fn spec_time_uniform_bytes(time_bits: u32) -> Seq<u8> {
    encode_words(time_uniform_words(time_bits), native_little_endian())
}

/// The time uniform is sixteen bytes; its first four bytes, read as a word in
/// the machine's byte order (as the shader reads them), give back the time
/// bits, and the twelve bytes after them are zero. So two different times
/// never give the same uniform.
pub proof fn lemma_time_uniform_reads_back(time_bits: u32)
    ensures
        spec_time_uniform_bytes(time_bits).len() == 16,
        decode_word(spec_time_uniform_bytes(time_bits).subrange(0, 4), native_little_endian())
            == time_bits,
        forall|i: int| 4 <= i < 16 ==> #[trigger] spec_time_uniform_bytes(time_bits)[i] == 0,
        forall|other: u32|
            spec_time_uniform_bytes(other) == spec_time_uniform_bytes(time_bits) ==> other
                == time_bits,
{
    let little = native_little_endian();
    assert forall|t: u32|
        #![trigger spec_time_uniform_bytes(t)]
        spec_time_uniform_bytes(t).len() == 16 && decode_word(
            spec_time_uniform_bytes(t).subrange(0, 4),
            little,
        ) == t && (forall|i: int| 4 <= i < 16 ==> #[trigger] spec_time_uniform_bytes(t)[i]
            == 0) by {
        let w = time_uniform_words(t);
        lemma_encode_words_layout(w, little);
        lemma_word_bytes_decode(t, little);
        let b = spec_time_uniform_bytes(t);
        assert(b.subrange(0, 4) =~= word_bytes(t, little)) by {
            assert forall|k: int| 0 <= k < 4 implies b.subrange(0, 4)[k] == word_bytes(
                t,
                little,
            )[k] by {
                assert(b[4 * 0 + k] == word_bytes(w[0], little)[k]);
            }
        }
        assert forall|i: int| 4 <= i < 16 implies #[trigger] b[i] == 0 by {
            let j = i / 4;
            let k = i % 4;
            assert(i == 4 * j + k);
            assert(w[j] == 0);
            assert(b[4 * j + k] == word_bytes(w[j], little)[k]);
        }
    }
    assert forall|other: u32|
        spec_time_uniform_bytes(other) == spec_time_uniform_bytes(time_bits) implies other
        == time_bits by {
        assert(decode_word(spec_time_uniform_bytes(other).subrange(0, 4), little) == other);
    }
}

/// The bytes of `bytemuck::cast_slice::<u32, u8>(words)`, copied into a vector.
///
/// `cast_slice` reinterprets the words' memory as bytes: four bytes per word,
/// in order, each word in the byte order of the machine
/// (`native_little_endian()`), which is the same for every call. The cast from
/// `u32` to `u8` never fails (alignment 1, size divides).
#[verifier::external_body]
fn cast_words_to_bytes(words: &[u32]) -> (bytes: Vec<u8>)
    ensures
        bytes@ == encode_words(words@, native_little_endian()),
        is_native_encoding(bytes@, words@),
{
    bytemuck::cast_slice::<u32, u8>(words).to_vec()
}

/// The bytes written into the time buffer before each hue-rotation pass:
/// the bits of the time value (`f32::to_bits`) in the machine's byte order,
/// followed by twelve zero bytes.
pub fn time_uniform_bytes(time_bits: u32) -> (bytes: Vec<u8>)
    ensures
        bytes@ == spec_time_uniform_bytes(time_bits),
        is_native_encoding(bytes@, time_uniform_words(time_bits)),
        bytes@.len() == TIME_UNIFORM_SIZE,
        bytes@.subrange(0, 4) == word_bytes(time_bits, native_little_endian()),
        decode_word(bytes@.subrange(0, 4), native_little_endian()) == time_bits,
        forall|i: int| 4 <= i < 16 ==> bytes@[i] == 0,
{
    let words: Vec<u32> = vec![time_bits, 0u32, 0u32, 0u32];
    assert(words@ == time_uniform_words(time_bits));
    let bytes = cast_words_to_bytes(words.as_slice());
    proof {
        let w = time_uniform_words(time_bits);
        let little = native_little_endian();
        lemma_time_uniform_reads_back(time_bits);
        lemma_encode_words_layout(w, little);
        lemma_word_bytes_decode(time_bits, little);
        assert(bytes@.subrange(0, 4) =~= word_bytes(time_bits, little)) by {
            assert forall|k: int| 0 <= k < 4 implies bytes@.subrange(0, 4)[k] == word_bytes(
                time_bits,
                little,
            )[k] by {
                assert(bytes@[4 * 0 + k] == word_bytes(w[0], little)[k]);
            }
        }
        assert forall|i: int| 4 <= i < 16 implies bytes@[i] == 0 by {
            assert(spec_time_uniform_bytes(time_bits)[i] == 0);
        }
    }
    bytes
}

} // verus!

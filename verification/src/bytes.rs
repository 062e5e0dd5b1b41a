//! Between words and bytes. What is uploaded to the GPU and what is read from
//! a buffer file lies in memory in the byte order of the machine: a 32-bit
//! word is four bytes, a 16-bit half word two.

use vstd::prelude::*;

verus! {

/// The four bytes of a word, lowest first.
pub open spec fn le_word(w: u32) -> Seq<u8> {
    seq![
        (w % 256) as u8,
        ((w / 0x100) % 256) as u8,
        ((w / 0x1_0000) % 256) as u8,
        ((w / 0x100_0000) % 256) as u8,
    ]
}

/// The four bytes of a word, highest first.
pub open spec fn be_word(w: u32) -> Seq<u8> {
    seq![
        ((w / 0x100_0000) % 256) as u8,
        ((w / 0x1_0000) % 256) as u8,
        ((w / 0x100) % 256) as u8,
        (w % 256) as u8,
    ]
}

/// The two bytes of a half word, lowest first.
pub open spec fn le_half(h: u16) -> Seq<u8> {
    seq![(h % 256) as u8, ((h / 0x100) % 256) as u8]
}

/// The two bytes of a half word, highest first.
pub open spec fn be_half(h: u16) -> Seq<u8> {
    seq![((h / 0x100) % 256) as u8, (h % 256) as u8]
}

/// The words one after another, each lowest byte first.
pub open spec fn le_bytes(words: Seq<u32>) -> Seq<u8> {
    Seq::new(4 * words.len(), |i: int| le_word(words[i / 4])[i % 4])
}

/// The words one after another, each highest byte first.
pub open spec fn be_bytes(words: Seq<u32>) -> Seq<u8> {
    Seq::new(4 * words.len(), |i: int| be_word(words[i / 4])[i % 4])
}

/// `bytes` is `words` in memory on a machine of either byte order.
pub open spec fn is_memory_of(bytes: Seq<u8>, words: Seq<u32>) -> bool {
    bytes == le_bytes(words) || bytes == be_bytes(words)
}

/// Either way there are four bytes to a word.
pub proof fn lemma_memory_len(bytes: Seq<u8>, words: Seq<u32>)
    requires
        is_memory_of(bytes, words),
    ensures
        bytes.len() == 4 * words.len(),
{
}

/// Calls `bytemuck::cast_slice` from `u32` to `u8` and copies what it returns.
/// Trusted: the result is the memory of the slice, that is its words in order,
/// each as four bytes in the byte order of the machine. The cast cannot fail in
/// this direction: bytes have no alignment, and any number of them is whole.
#[verifier::external_body]
pub(crate) fn words_to_bytes(words: &Vec<u32>) -> (bytes: Vec<u8>)
    ensures
        is_memory_of(bytes@, words@),
{
    bytemuck::cast_slice::<u32, u8>(words.as_slice()).to_vec()
}

/// Calls `bytemuck::pod_read_unaligned` for a `u32`. Trusted: the result is
/// the word that lies in memory as the four bytes, in the byte order of the
/// machine. The call panics on any other number of bytes.
#[verifier::external_body]
pub(crate) fn read_word(bytes: &[u8]) -> (word: u32)
    requires
        bytes@.len() == 4,
    ensures
        bytes@ == le_word(word) || bytes@ == be_word(word),
{
    bytemuck::pod_read_unaligned::<u32>(bytes)
}

/// Calls `bytemuck::pod_read_unaligned` for a `u16`. Trusted: the result is
/// the half word that lies in memory as the two bytes, in the byte order of
/// the machine. The call panics on any other number of bytes.
#[verifier::external_body]
pub(crate) fn read_half(bytes: &[u8]) -> (half: u16)
    requires
        bytes@.len() == 2,
    ensures
        bytes@ == le_half(half) || bytes@ == be_half(half),
{
    bytemuck::pod_read_unaligned::<u16>(bytes)
}

/// `bytes` is `words` in memory, each word read for itself: four bytes to
/// the word, in either byte order.
pub open spec fn holds_words(bytes: Seq<u8>, words: Seq<u32>) -> bool {
    &&& 4 * words.len() == bytes.len()
    &&& forall|i: int|
        0 <= i < words.len() ==> {
            let four = #[trigger] bytes.subrange(4 * i, 4 * i + 4);
            four == le_word(words[i]) || four == be_word(words[i])
        }
}

/// `bytes` is `halves` in memory, each half word read for itself: two bytes
/// to the half word, in either byte order.
pub open spec fn holds_halves(bytes: Seq<u8>, halves: Seq<u16>) -> bool {
    &&& 2 * halves.len() == bytes.len()
    &&& forall|i: int|
        0 <= i < halves.len() ==> {
            let two = #[trigger] bytes.subrange(2 * i, 2 * i + 2);
            two == le_half(halves[i]) || two == be_half(halves[i])
        }
}

/// The words that lie in memory as the given bytes, four bytes to the word;
/// `None` where the bytes are no whole number of words.
pub fn words_from_bytes(bytes: &[u8]) -> (r: Option<Vec<u32>>)
    ensures
        r is Some <==> bytes@.len() % 4 == 0,
        r matches Some(words) ==> holds_words(bytes@, words@),
{
    if bytes.len() % 4 != 0 {
        return None;
    }
    let count = bytes.len() / 4;
    let mut words: Vec<u32> = Vec::new();
    let mut i: usize = 0;
    while i < count
        invariant
            i <= count,
            count * 4 == bytes@.len(),
            count * 4 <= usize::MAX,
            words@.len() == i,
            forall|k: int|
                0 <= k < i ==> {
                    let four = #[trigger] bytes@.subrange(4 * k, 4 * k + 4);
                    four == le_word(words@[k]) || four == be_word(words@[k])
                },
        decreases count - i,
    {
        let four = vstd::slice::slice_subrange(bytes, 4 * i, 4 * i + 4);
        let word = read_word(four);
        words.push(word);
        i = i + 1;
    }
    Some(words)
}

/// The half words that lie in memory as the given bytes, two bytes to the
/// half word; `None` where the bytes are no whole number of half words.
pub fn halves_from_bytes(bytes: &[u8]) -> (r: Option<Vec<u16>>)
    ensures
        r is Some <==> bytes@.len() % 2 == 0,
        r matches Some(halves) ==> holds_halves(bytes@, halves@),
{
    if bytes.len() % 2 != 0 {
        return None;
    }
    let count = bytes.len() / 2;
    let mut halves: Vec<u16> = Vec::new();
    let mut i: usize = 0;
    while i < count
        invariant
            i <= count,
            count * 2 == bytes@.len(),
            count * 2 <= usize::MAX,
            halves@.len() == i,
            forall|k: int|
                0 <= k < i ==> {
                    let two = #[trigger] bytes@.subrange(2 * k, 2 * k + 2);
                    two == le_half(halves@[k]) || two == be_half(halves@[k])
                },
        decreases count - i,
    {
        let two = vstd::slice::slice_subrange(bytes, 2 * i, 2 * i + 2);
        let half = read_half(two);
        halves.push(half);
        i = i + 1;
    }
    Some(halves)
}

} // verus!

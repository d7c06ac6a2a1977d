use vstd::prelude::*;
use crate::operand::{MAX_OPERAND, MEMORY_SIZE};

verus! {

/// Why a program image was refused.
#[derive(Debug, Clone, Copy, PartialEq, Eq, Structural)]
pub enum LoadError {
    /// The image has an odd number of bytes.
    TruncatedInput,
    /// A decoded word lies above the valid operand range.
    InvalidWord,
}

impl LoadError {
    /// The process exit status that reports this condition.
    pub fn exit_code(&self) -> (r: i32)
        ensures
            r == match *self {
                LoadError::TruncatedInput => 2i32,
                LoadError::InvalidWord => 3,
            },
    {
        match self {
            LoadError::TruncatedInput => 2,
            LoadError::InvalidWord => 3,
        }
    }
}

/// The `i`-th little-endian word of `bytes`.
pub open spec fn word_of(bytes: Seq<u8>, i: int) -> u16 {
    (bytes[2 * i] + 256 * bytes[2 * i + 1]) as u16
}

/// Some word of the image lies above the valid operand range.
pub open spec fn has_invalid_word(bytes: Seq<u8>) -> bool {
    exists|i: int| 0 <= i < bytes.len() / 2 && #[trigger] word_of(bytes, i) > MAX_OPERAND
}

/// Program memory as loaded from `bytes`: its words, then zeros up to the
/// size of the address space (words beyond it are not loaded).
pub open spec fn image_of(bytes: Seq<u8>) -> Seq<u16> {
    Seq::new(MEMORY_SIZE as nat, |i: int| if i < bytes.len() / 2 { word_of(bytes, i) } else { 0u16 })
}

/// Decodes a program image into the full memory of a machine.
pub fn load_program(bytes: &Vec<u8>) -> (r: Result<Vec<u16>, LoadError>)
    ensures
        r == Err::<Vec<u16>, LoadError>(LoadError::TruncatedInput) <==> bytes@.len() % 2 == 1,
        r == Err::<Vec<u16>, LoadError>(LoadError::InvalidWord) <==> (bytes@.len() % 2 == 0
            && has_invalid_word(bytes@)),
        r matches Ok(m) ==> m@ == image_of(bytes@),
{
    let n = bytes.len();
    if n % 2 == 1 {
        return Err(LoadError::TruncatedInput);
    }
    let count = n / 2;
    let mut words: Vec<u16> = Vec::new();
    let mut i: usize = 0;
    while i < count
        invariant
            count == bytes@.len() / 2,
            n == bytes@.len(),
            n % 2 == 0,
            i <= count,
            words@.len() == i,
            forall|j: int| 0 <= j < i ==> words@[j] == word_of(bytes@, j),
            forall|j: int| 0 <= j < i ==> word_of(bytes@, j) <= MAX_OPERAND,
        decreases count - i,
    {
        let w = bytes[2 * i] as u16 + (bytes[2 * i + 1] as u16) * 256;
        if w > MAX_OPERAND {
            assert(word_of(bytes@, i as int) > MAX_OPERAND);
            return Err(LoadError::InvalidWord);
        }
        words.push(w);
        i = i + 1;
    }
    let mut memory: Vec<u16> = Vec::new();
    let mut k: usize = 0;
    while k < MEMORY_SIZE
        invariant
            count == bytes@.len() / 2,
            words@.len() == count,
            forall|j: int| 0 <= j < count ==> words@[j] == word_of(bytes@, j),
            k <= MEMORY_SIZE,
            memory@.len() == k,
            forall|j: int| 0 <= j < k ==> memory@[j] == image_of(bytes@)[j],
        decreases MEMORY_SIZE - k,
    {
        if k < count {
            memory.push(words[k]);
        } else {
            memory.push(0);
        }
        k = k + 1;
    }
    assert(memory@ =~= image_of(bytes@));
    Ok(memory)
}

} // verus!

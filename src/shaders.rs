//! Shader bytecode as the words that a shader module is made from.
use vstd::prelude::*;

verus! {

/// Why bytecode cannot become a shader module.
#[derive(Clone, Copy, Debug, PartialEq, Eq, Structural)]
pub enum ShaderError {
    /// The length is not a whole number of 32-bit words.
    NotWordAligned,
}

/// The little-endian word that starts at byte `4 * i`.
pub open spec fn word_at(code: Seq<u8>, i: int) -> u32 {
    (code[4 * i] as int + code[4 * i + 1] as int * 0x100 + code[4 * i + 2] as int * 0x1_0000
        + code[4 * i + 3] as int * 0x100_0000) as u32
}

/// Splits bytecode into 32-bit little-endian words; refuses a length that is
/// not a multiple of four.
pub fn shader_code_words(code: &Vec<u8>) -> (r: Result<Vec<u32>, ShaderError>)
    ensures
        code@.len() % 4 != 0 <==> r is Err,
        r matches Ok(words) ==> words@.len() * 4 == code@.len() && forall|i: int|
            0 <= i < words@.len() ==> #[trigger] words@[i] == word_at(code@, i),
{
    if code.len() % 4 != 0 {
        return Err(ShaderError::NotWordAligned);
    }
    let len: usize = code.len();
    let n = len / 4;
    let mut words: Vec<u32> = Vec::new();
    let mut i: usize = 0;
    while i < n
        invariant
            n * 4 == code@.len(),
            len == code@.len(),
            i <= n,
            words@.len() == i,
            forall|k: int| 0 <= k < i ==> #[trigger] words@[k] == word_at(code@, k),
        decreases n - i,
    {
        assert(4 * i + 3 < code@.len()) by (nonlinear_arith)
            requires
                i < n,
                len <= usize::MAX,
                n * 4 == code@.len(),
                len == code@.len(),
        ;
        let b: usize = 4 * i;
        let w: u32 = code[b] as u32 + code[b + 1] as u32 * 0x100 + code[b + 2] as u32 * 0x1_0000
            + code[b + 3] as u32 * 0x100_0000;
        words.push(w);
        i = i + 1;
    }
    Ok(words)
}

} // verus!

use vstd::prelude::*;

verus! {

#[verifier::external_type_specification]
#[verifier::external_body]
pub struct ExPodCastError(bytemuck::PodCastError);

/// Relies on `bytemuck::try_cast_slice` from bytes to `u32` (the words are
/// copied out): it fails when the byte count is not a whole number of words
/// (or when the bytes are not aligned for `u32`), and otherwise gives one
/// word per four bytes, in the machine's byte order.
#[verifier::external_body]
fn cast_words(bytes: &[u8]) -> (r: Result<Vec<u32>, bytemuck::PodCastError>)
    ensures
        bytes@.len() % 4 != 0 ==> r is Err,
        r matches Ok(w) ==> w@.len() * 4 == bytes@.len(),
{
    match bytemuck::try_cast_slice::<u8, u32>(bytes) {
        Ok(words) => Ok(words.to_vec()),
        Err(e) => Err(e),
    }
}

#[derive(Clone, Copy, Debug, PartialEq, Eq, Structural)]
pub enum ShaderError {
    /// The shader binary is empty.
    Empty,
    /// The shader binary is not a whole number of 32-bit words.
    Truncated { len: usize },
    /// The shader binary's bytes are not aligned for 32-bit words.
    Misaligned,
}

/// The 32-bit words of a compiled shader binary, as a shader module takes them.
pub fn shader_code(blob: &Vec<u8>) -> (r: Result<Vec<u32>, ShaderError>)
    ensures
        blob@.len() == 0 ==> r == Err::<Vec<u32>, ShaderError>(ShaderError::Empty),
        blob@.len() > 0 && blob@.len() % 4 != 0 ==> r == Err::<Vec<u32>, ShaderError>(
            ShaderError::Truncated { len: blob@.len() as usize },
        ),
        r matches Ok(w) ==> w@.len() * 4 == blob@.len() && w@.len() > 0,
        (r == Err::<Vec<u32>, ShaderError>(ShaderError::Empty)) <==> blob@.len() == 0,
        (r == Err::<Vec<u32>, ShaderError>(ShaderError::Truncated { len: blob@.len() as usize }))
            <==> (blob@.len() > 0 && blob@.len() % 4 != 0),
        r matches Err(ShaderError::Truncated { len }) ==> len == blob@.len(),
        (r == Err::<Vec<u32>, ShaderError>(ShaderError::Misaligned)) ==> (blob@.len() > 0
            && blob@.len() % 4 == 0),
{
    if blob.len() == 0 {
        return Err(ShaderError::Empty);
    }
    if blob.len() % 4 != 0 {
        return Err(ShaderError::Truncated { len: blob.len() });
    }
    match cast_words(blob.as_slice()) {
        Ok(words) => Ok(words),
        Err(_) => Err(ShaderError::Misaligned),
    }
}

} // verus!

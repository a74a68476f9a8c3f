//! Shader stages and the bytecode that a shader module is made from.

use vstd::prelude::*;
use crate::error::{CreationError, NativeCode, Subject};

verus! {

/// The stage that a shader serves.
#[derive(Clone, Copy, Debug, PartialEq, Eq, Structural)]
pub enum ShaderType {
    Fragment,
    Vertex,
}

/// Why no shader module came about.
#[derive(Clone, Copy, Debug, PartialEq, Eq, Structural)]
pub enum ShaderError {
    /// The bytecode is no whole number of 32-bit words.
    Unaligned(ShaderType),
    /// The backend refused the module.
    Creation(CreationError),
}

/// The word by which a stage is named in messages.
pub open spec fn stage_word(shader_type: ShaderType) -> Seq<char> {
    match shader_type {
        ShaderType::Fragment => "fragment"@,
        ShaderType::Vertex => "vertex"@,
    }
}

/// The subject of the error that the creation of a stage's module fails
/// with.
pub open spec fn stage_subject(shader_type: ShaderType) -> Subject {
    match shader_type {
        ShaderType::Fragment => Subject::FragmentShaderModule,
        ShaderType::Vertex => Subject::VertexShaderModule,
    }
}

/// The 32-bit word that four bytes make, the first byte lowest.
pub open spec fn word_of_bytes(b0: u8, b1: u8, b2: u8, b3: u8) -> u32 {
    (b0 as int + b1 as int * 0x100 + b2 as int * 0x1_0000 + b3 as int * 0x100_0000) as u32
}

/// The words that a bytecode of whole words holds.
pub open spec fn words_of_bytes(bytes: Seq<u8>) -> Seq<u32> {
    Seq::new(
        (bytes.len() / 4) as nat,
        |i: int| word_of_bytes(bytes[4 * i], bytes[4 * i + 1], bytes[4 * i + 2], bytes[4 * i + 3]),
    )
}

proof fn lemma_word_of_bytes(b0: u8, b1: u8, b2: u8, b3: u8)
    by (bit_vector)
    ensures
        (b0 as u32) | ((b1 as u32) << 8u32) | ((b2 as u32) << 16u32) | ((b3 as u32) << 24u32)
            == (b0 as u32) + (b1 as u32) * 0x100u32 + (b2 as u32) * 0x1_0000u32 + (b3 as u32)
            * 0x100_0000u32,
{
}

impl ShaderType {
    /// The word by which the stage is named in messages.
    pub fn name(&self) -> (name: &'static str)
        ensures
            name@ == stage_word(*self),
    {
        match self {
            ShaderType::Fragment => "fragment",
            ShaderType::Vertex => "vertex",
        }
    }

    /// The subject of the error that the creation of the stage's module
    /// fails with.
    pub fn subject(&self) -> (subject: Subject)
        ensures
            subject == stage_subject(*self),
    {
        match self {
            ShaderType::Fragment => Subject::FragmentShaderModule,
            ShaderType::Vertex => Subject::VertexShaderModule,
        }
    }
}

/// Reads a bytecode as 32-bit words, each word's first byte lowest. A
/// bytecode that is no whole number of words is refused, for the stage that
/// it was meant for.
pub fn shader_words(shader_type: ShaderType, shader_bytes: &Vec<u8>) -> (result: Result<
    Vec<u32>,
    ShaderError,
>)
    ensures
        match result {
            Ok(words) => shader_bytes@.len() % 4 == 0 && words@ == words_of_bytes(shader_bytes@),
            Err(error) => shader_bytes@.len() % 4 != 0 && error == ShaderError::Unaligned(
                shader_type,
            ),
        },
{
    let length = shader_bytes.len();
    if length % 4 != 0 {
        return Err(ShaderError::Unaligned(shader_type));
    }
    let count = length / 4;
    let mut words: Vec<u32> = Vec::new();
    let mut i: usize = 0;
    while i < count
        invariant
            i <= count,
            count == shader_bytes@.len() / 4,
            shader_bytes@.len() % 4 == 0,
            length == shader_bytes@.len(),
            length == 4 * count,
            words@.len() == i,
            forall|j: int|
                0 <= j < i ==> words@[j] == word_of_bytes(
                    shader_bytes@[4 * j],
                    shader_bytes@[4 * j + 1],
                    shader_bytes@[4 * j + 2],
                    shader_bytes@[4 * j + 3],
                ),
        decreases count - i,
    {
        let b0 = shader_bytes[4 * i];
        let b1 = shader_bytes[4 * i + 1];
        let b2 = shader_bytes[4 * i + 2];
        let b3 = shader_bytes[4 * i + 3];
        proof {
            lemma_word_of_bytes(b0, b1, b2, b3);
        }
        words.push((b0 as u32) | ((b1 as u32) << 8) | ((b2 as u32) << 16) | ((b3 as u32) << 24));
        i += 1;
    }
    proof {
        assert(words@ =~= words_of_bytes(shader_bytes@));
    }
    Ok(words)
}

/// What the creation of a stage's shader module gave: the module on the
/// success code, else the creation error with the code and the stage's
/// subject.
pub fn shader_module_result(shader_type: ShaderType, code: NativeCode, module: u64) -> (result:
    Result<u64, ShaderError>)
    ensures
        result == if code == 0 {
            Ok::<u64, ShaderError>(module)
        } else {
            Err::<u64, ShaderError>(
                ShaderError::Creation(CreationError { code, subject: stage_subject(shader_type) }),
            )
        },
{
    if code == 0 {
        Ok(module)
    } else {
        Err(ShaderError::Creation(CreationError { code, subject: shader_type.subject() }))
    }
}

} // verus!

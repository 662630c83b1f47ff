use vstd::prelude::*;
use crate::errors::GraphicsError;

verus! {

/// Pipeline stage a shader is compiled for.
#[derive(Clone, Copy, Debug, PartialEq, Eq, Structural)]
pub enum ShaderStage {
    Vertex,
    Fragment,
    Geometry,
    Tesselate,
    Compute,
}

/// A compiled shader: its stage and its SPIR-V words.
pub struct Shader {
    pub(crate) stage: ShaderStage,
    pub(crate) code: Vec<u32>,
}

/// The word made of the four bytes at `4 * i` of `bytes`, least significant first.
pub open spec fn spec_le_word(bytes: Seq<u8>, i: int) -> int {
    bytes[4 * i] + bytes[4 * i + 1] * 256 + bytes[4 * i + 2] * 65536 + bytes[4 * i + 3] * 16777216
}

/// The words that a byte string holds: one per whole group of four bytes,
/// least significant byte first; trailing bytes that make no whole word are dropped.
pub open spec fn spec_words_of_bytes(bytes: Seq<u8>) -> Seq<u32> {
    Seq::new(bytes.len() / 4, |i: int| spec_le_word(bytes, i) as u32)
}

/// The bytes of a word string: each word as four bytes, least significant first.
pub open spec fn spec_bytes_of_words(words: Seq<u32>) -> Seq<u8> {
    Seq::new(4 * words.len(), |k: int| ((words[k / 4] >> (8 * (k % 4)) as u32) & 0xff) as u8)
}

/// Reading words back from the bytes of a word string gives the word string:
/// `from_bytes` on the little-endian encoding of `words` yields what
/// `from_words` on `words` yields.
pub proof fn lemma_words_bytes_roundtrip(words: Seq<u32>)
    ensures
        spec_words_of_bytes(spec_bytes_of_words(words)) == words,
{
    let bytes = spec_bytes_of_words(words);
    assert(bytes.len() / 4 == words.len());
    assert forall|i: int| 0 <= i < words.len() implies #[trigger] spec_words_of_bytes(bytes)[i] == words[i] by {
        let w = words[i];
        assert((4 * i) / 4 == i && (4 * i) % 4 == 0);
        assert((4 * i + 1) / 4 == i && (4 * i + 1) % 4 == 1);
        assert((4 * i + 2) / 4 == i && (4 * i + 2) % 4 == 2);
        assert((4 * i + 3) / 4 == i && (4 * i + 3) % 4 == 3);
        let b0 = ((w >> 0u32) & 0xff) as u8;
        let b1 = ((w >> 8u32) & 0xff) as u8;
        let b2 = ((w >> 16u32) & 0xff) as u8;
        let b3 = ((w >> 24u32) & 0xff) as u8;
        assert(bytes[4 * i] == b0);
        assert(bytes[4 * i + 1] == b1);
        assert(bytes[4 * i + 2] == b2);
        assert(bytes[4 * i + 3] == b3);
        assert(b0 as int + b1 as int * 256 + b2 as int * 65536 + b3 as int * 16777216 == w as int) by (bit_vector)
            requires
                b0 == ((w >> 0u32) & 0xff) as u8,
                b1 == ((w >> 8u32) & 0xff) as u8,
                b2 == ((w >> 16u32) & 0xff) as u8,
                b3 == ((w >> 24u32) & 0xff) as u8,
        ;
    }
    assert(spec_words_of_bytes(bytes) =~= words);
}

/// Whether a graphics pipeline accepts a shader of this stage.
pub open spec fn spec_graphics_stage(stage: ShaderStage) -> bool {
    stage == ShaderStage::Vertex || stage == ShaderStage::Fragment || stage == ShaderStage::Geometry
}

impl Shader {
    /// The stage of the shader.
    pub closed spec fn spec_stage(&self) -> ShaderStage {
        self.stage
    }

    /// The words of the shader.
    pub closed spec fn spec_code(&self) -> Seq<u32> {
        self.code@
    }

    /// Creates new shader from words and specified stage.
    pub fn from_words(words: &[u32], stage: ShaderStage) -> (r: Result<Shader, GraphicsError>)
        ensures
            r matches Ok(s) && s.spec_stage() == stage && s.spec_code() == words@,
    {
        let mut code: Vec<u32> = Vec::new();
        let mut i: usize = 0;
        while i < words.len()
            invariant
                i <= words@.len(),
                code@ == words@.subrange(0, i as int),
            decreases words@.len() - i,
        {
            code.push(words[i]);
            i = i + 1;
        }
        Ok(Shader { stage, code })
    }

    /// Creates new shader from bytes and specified stage: every whole group of
    /// four bytes becomes one word, least significant byte first.
    pub fn from_bytes(bytes: &[u8], stage: ShaderStage) -> (r: Result<Shader, GraphicsError>)
        ensures
            r matches Ok(s) && s.spec_stage() == stage && s.spec_code() == spec_words_of_bytes(bytes@),
    {
        let len = bytes.len();
        let n = len / 4;
        let mut code: Vec<u32> = Vec::new();
        let mut i: usize = 0;
        while i < n
            invariant
                len == bytes@.len(),
                n == len / 4,
                i <= n,
                code@.len() == i,
                forall|k: int| 0 <= k < i ==> code@[k] == spec_le_word(bytes@, k) as u32,
            decreases n - i,
        {
            assert(4 * i + 3 < len) by (nonlinear_arith)
                requires
                    i < n,
                    n == len / 4,
            ;
            let b0 = bytes[4 * i] as u32;
            let b1 = bytes[4 * i + 1] as u32;
            let b2 = bytes[4 * i + 2] as u32;
            let b3 = bytes[4 * i + 3] as u32;
            let w = b0 + b1 * 256 + b2 * 65536 + b3 * 16777216;
            code.push(w);
            i = i + 1;
        }
        assert(code@ =~= spec_words_of_bytes(bytes@));
        Ok(Shader { stage, code })
    }

    /// The stage of the shader.
    pub fn stage(&self) -> (r: ShaderStage)
        ensures
            r == self.spec_stage(),
    {
        self.stage
    }

    /// The words of the shader.
    pub fn code(&self) -> (r: &Vec<u32>)
        ensures
            r@ == self.spec_code(),
    {
        &self.code
    }

    /// Checks that the shader can build a compute pipeline.
    pub fn check_compute(&self) -> (r: Result<(), GraphicsError>)
        ensures
            r is Ok <==> self.spec_stage() == ShaderStage::Compute,
            r matches Err(e) ==> e == GraphicsError::ShaderError,
    {
        match self.stage {
            ShaderStage::Compute => Ok(()),
            _ => Err(GraphicsError::ShaderError),
        }
    }
}

/// Whether a graphics pipeline accepts a shader of this stage (vertex,
/// fragment or geometry).
pub fn graphics_stage_supported(stage: ShaderStage) -> (r: bool)
    ensures
        r == spec_graphics_stage(stage),
{
    match stage {
        ShaderStage::Vertex => true,
        ShaderStage::Fragment => true,
        ShaderStage::Geometry => true,
        _ => false,
    }
}

/// Checks the shader list of a graphics pipeline: it must not be empty.
/// Every stage must be one that a graphics pipeline accepts.
pub fn check_graphics_shaders(shaders: &[Shader]) -> (r: Result<(), GraphicsError>)
    requires
        forall|i: int| 0 <= i < shaders@.len() ==> spec_graphics_stage(#[trigger] shaders@[i].spec_stage()),
    ensures
        r is Ok <==> shaders@.len() > 0,
        r matches Err(e) ==> e == GraphicsError::ShaderError,
{
    if shaders.len() == 0 {
        Err(GraphicsError::ShaderError)
    } else {
        Ok(())
    }
}

} // verus!

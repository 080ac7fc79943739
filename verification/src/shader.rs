//! Precompiled shader modules.
//!
//! The engine receives shader code as a compiled binary module (a vector of
//! bytes holding 32-bit words); compiling source text to that form is an
//! external concern. Creating a module from malformed bytecode is a fatal
//! error, checked here: the bytes must be a whole number of words, at least
//! one, and open with the binary module magic number.
use crate::device::{Device, ObjectKind};
use crate::error::EngineError;
use crate::ids::{Asset, AssetId};
use crate::types::Handle;
use vstd::prelude::*;

verus! {

/// The magic number opening every compiled shader module, read
/// little-endian.
pub const SPIRV_MAGIC: u32 = 0x0723_0203;

/// The pipeline stage a shader runs in.
#[derive(Clone, Copy, PartialEq, Eq, Structural, Debug)]
pub enum ShaderStage {
    Vertex,
    Fragment,
}

/// A shader as registered: its compiled code and target stage.
pub struct Shader {
    pub id: AssetId,
    pub code: Vec<u8>,
    pub stage: ShaderStage,
}

/// A 32-bit word from four little-endian bytes.
pub open spec fn le_word(b0: u8, b1: u8, b2: u8, b3: u8) -> u32 {
    (b0 as u32) | ((b1 as u32) << 8) | ((b2 as u32) << 16) | ((b3 as u32) << 24)
}

/// Well-formed module bytecode: whole 32-bit words, at least one, opening
/// with the module magic number.
pub open spec fn spirv_wf(bytes: Seq<u8>) -> bool {
    &&& bytes.len() % 4 == 0
    &&& bytes.len() >= 4
    &&& le_word(bytes[0], bytes[1], bytes[2], bytes[3]) == SPIRV_MAGIC
}

impl Shader {
    /// A shader holding the given compiled code for the given stage, not
    /// yet registered (identifier zero until the registry assigns one).
    pub fn new(code: &[u8], stage: ShaderStage) -> (r: Shader)
        ensures
            r.code@ == code@,
            r.stage == stage,
            r.id == 0,
    {
        Shader { id: 0, code: slice_to_vec(code), stage }
    }

    /// Decodes the bytecode and creates the module on the device. Fails
    /// fatally — and creates nothing — exactly when the bytecode is
    /// malformed.
    pub fn into_initialized(&self, device: &mut Device) -> (r: Result<
        InitializedShader,
        EngineError,
    >)
        requires
            old(device).wf(),
        ensures
            final(device).wf(),
            r is Ok <==> spirv_wf(self.code@),
            r matches Err(e) ==> e == EngineError::MalformedShader && *final(device) == *old(
                device,
            ),
            r matches Ok(s) ==> {
                &&& s.stage == self.stage
                &&& s.module == old(device).plain@.len()
                &&& final(device).plain@ == old(device).plain@.push(ObjectKind::ShaderModule)
                &&& final(device).buffers@ == old(device).buffers@
                &&& final(device).images@ == old(device).images@
                &&& final(device).command_buffers@ == old(device).command_buffers@
                &&& final(device).submissions@ == old(device).submissions@
                &&& final(device).presents@ == old(device).presents@
                &&& final(device).surface_generation == old(device).surface_generation
            },
    {
        if self.code.len() % 4 != 0 || self.code.len() < 4 {
            return Err(EngineError::MalformedShader);
        }
        let b0 = self.code[0];
        let b1 = self.code[1];
        let b2 = self.code[2];
        let b3 = self.code[3];
        let word = (b0 as u32) | ((b1 as u32) << 8) | ((b2 as u32) << 16) | ((b3 as u32) << 24);
        if word != SPIRV_MAGIC {
            return Err(EngineError::MalformedShader);
        }
        let module = device.create_object(ObjectKind::ShaderModule);
        Ok(InitializedShader { module, stage: self.stage })
    }
}

impl Asset for Shader {
    fn id(&self) -> (r: AssetId)
        ensures
            r == self.id,
    {
        self.id
    }
}

/// A shader module resident on the device.
pub struct InitializedShader {
    pub module: Handle,
    pub stage: ShaderStage,
}

/// What a pipeline needs to bind one shader stage.
#[derive(Clone, Copy, PartialEq, Eq, Structural, Debug)]
pub struct ShaderStageInfo {
    pub stage: ShaderStage,
    pub module: Handle,
}

impl InitializedShader {
    /// The stage description handed to pipeline creation.
    pub fn stage_info(&self) -> (r: ShaderStageInfo)
        ensures
            r.stage == self.stage,
            r.module == self.module,
    {
        ShaderStageInfo { stage: self.stage, module: self.module }
    }
}

/// A copy of a byte slice.
fn slice_to_vec(s: &[u8]) -> (r: Vec<u8>)
    ensures
        r@ == s@,
{
    let mut r: Vec<u8> = Vec::new();
    let mut i: usize = 0;
    while i < s.len()
        invariant
            0 <= i <= s@.len(),
            r@ == s@.take(i as int),
        decreases s@.len() - i,
    {
        let b = s[i];
        r.push(b);
        proof {
            assert(r@ =~= s@.take(i as int + 1));
        }
        i += 1;
    }
    proof {
        assert(s@.take(s@.len() as int) =~= s@);
    }
    r
}

} // verus!

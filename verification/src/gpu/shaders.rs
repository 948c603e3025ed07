//! Shaders, their frame predicates, and their GPU-resident counterparts.

use vstd::prelude::*;
use crate::errors::Error;
use crate::gpu::Factory;

verus! {

/// A frame predicate held as data: it holds on one frame and on no other.
///
/// Every copy of a predicate carries the same frame, so copying a gated
/// shader never changes when it draws.
#[derive(Clone, Copy, Debug, PartialEq, Eq, Structural)]
pub struct FramePredicate {
    pub frame: usize,
}

impl FramePredicate {
    /// Whether the predicate holds on frame `current`.
    pub open spec fn holds(self, current: usize) -> bool {
        current == self.frame
    }

    /// The predicate that holds on `frame` alone.
    pub fn on(frame: usize) -> (predicate: FramePredicate)
        ensures
            predicate.frame == frame,
    {
        FramePredicate { frame }
    }

    /// Evaluates the predicate on a frame.
    pub fn test(&self, current: usize) -> (holds: bool)
        ensures
            holds == self.holds(current),
    {
        current == self.frame
    }
}

/// Names an image that the caller holds, to be sampled by a shader.
#[derive(Clone, Copy, Debug, PartialEq, Eq, Structural)]
pub struct TextureSource {
    pub id: u64,
}

/// How the texels of a texture are stored.
#[derive(Clone, Copy, Debug, PartialEq, Eq, Structural)]
pub enum TextureFormat {
    /// Four channels, each a single-precision number.
    F32F32F32F32,
    /// Four channels, each a byte.
    U8U8U8U8,
}

/// Whether a texture has mipmaps, and who fills them.
#[derive(Clone, Copy, Debug, PartialEq, Eq, Structural)]
pub enum Mipmaps {
    NoMipmap,
    /// The GPU generates the mipmaps.
    AutoGenerated,
}

/// A texture that lives on the GPU, by the name the GPU gave it, with its
/// size in texels and the way it is stored.
#[derive(Clone, Copy, Debug, PartialEq, Eq, Structural)]
pub struct Texture {
    pub id: u32,
    pub width: u32,
    pub height: u32,
    pub format: TextureFormat,
    pub mipmaps: Mipmaps,
}

/// A GPU effect, described on the CPU side.
#[derive(Debug, PartialEq)]
pub enum Shader {
    /// Draws a mesh with the colors of its vertices.
    Default,
    /// Samples an image.
    Texture(TextureSource),
    /// Draws as `src` does on the frames on which `predicate` holds, and
    /// not at all on the others.
    Intermittent { src: Box<Shader>, predicate: FramePredicate },
}

impl Clone for Shader {
    fn clone(&self) -> (copy: Shader)
        ensures
            copy == *self,
        decreases self,
    {
        match self {
            Shader::Default => Shader::Default,
            Shader::Texture(source) => Shader::Texture(*source),
            Shader::Intermittent { src, predicate } => Shader::Intermittent {
                src: Box::new((**src).clone()),
                predicate: *predicate,
            },
        }
    }
}

impl Shader {
    /// Whether the shader draws on `frame`: every predicate around it holds.
    pub open spec fn active(self, frame: usize) -> bool
        decreases self,
    {
        match self {
            Shader::Default => true,
            Shader::Texture(_) => true,
            Shader::Intermittent { src, predicate } => predicate.holds(frame) && src.active(frame),
        }
    }

    /// The image that the shader samples, if it samples one.
    pub open spec fn source(self) -> Option<TextureSource>
        decreases self,
    {
        match self {
            Shader::Default => None,
            Shader::Texture(source) => Some(source),
            Shader::Intermittent { src, predicate } => src.source(),
        }
    }

    /// This shader, frozen into the single frame `render_frame`.
    pub open spec fn frozen(self, render_frame: usize) -> Shader {
        Shader::Intermittent { src: Box::new(self), predicate: FramePredicate { frame: render_frame } }
    }

    /// Decides whether the shader draws on `frame`.
    pub fn is_active(&self, frame: usize) -> (active: bool)
        ensures
            active == self.active(frame),
        decreases self,
    {
        match self {
            Shader::Default => true,
            Shader::Texture(_) => true,
            Shader::Intermittent { src, predicate } => predicate.test(frame) && src.is_active(frame),
        }
    }

    /// Finds the image that the shader samples.
    pub fn texture_source(&self) -> (source: Option<TextureSource>)
        ensures
            source == self.source(),
        decreases self,
    {
        match self {
            Shader::Default => None,
            Shader::Texture(source) => Some(*source),
            Shader::Intermittent { src, predicate } => src.texture_source(),
        }
    }

    /// Wraps the shader so that it draws on `render_frame` and on no other
    /// frame.
    pub fn once(self, render_frame: usize) -> (wrapped: Shader)
        ensures
            wrapped == self.frozen(render_frame),
    {
        Shader::Intermittent { src: Box::new(self), predicate: FramePredicate::on(render_frame) }
    }
}

/// A shader wrapped by `once` draws on the chosen frame if the shader inside
/// would, and on no other frame.
pub proof fn lemma_once_gates(shader: Shader, render_frame: usize, frame: usize)
    ensures
        shader.frozen(render_frame).active(frame) == (frame == render_frame && shader.active(frame)),
{
}

/// The GPU-resident counterpart of a `Shader`.
#[derive(Debug, PartialEq)]
pub enum GpuShader {
    Default,
    /// Samples a texture that lives on the GPU.
    Texture(Texture),
    Intermittent { src: Box<GpuShader>, predicate: FramePredicate },
}

impl Clone for GpuShader {
    fn clone(&self) -> (copy: GpuShader)
        ensures
            copy == *self,
        decreases self,
    {
        match self {
            GpuShader::Default => GpuShader::Default,
            GpuShader::Texture(texture) => GpuShader::Texture(*texture),
            GpuShader::Intermittent { src, predicate } => GpuShader::Intermittent {
                src: Box::new((**src).clone()),
                predicate: *predicate,
            },
        }
    }
}

impl GpuShader {
    /// Whether the shader draws on `frame`: every predicate around it holds.
    pub open spec fn active(self, frame: usize) -> bool
        decreases self,
    {
        match self {
            GpuShader::Default => true,
            GpuShader::Texture(_) => true,
            GpuShader::Intermittent { src, predicate } => predicate.holds(frame) && src.active(
                frame,
            ),
        }
    }

    /// The GPU shader that `spec` becomes, given what came of uploading the
    /// image it samples: the frame predicates are kept as they are, and a sampled image
    /// is replaced by the uploaded texture. A shader that samples an image
    /// cannot be made without one.
    pub open spec fn realized(spec: Shader, uploaded: Option<Result<Texture, Error>>) -> Result<
        GpuShader,
        Error,
    >
        decreases spec,
    {
        match spec {
            Shader::Default => Ok(GpuShader::Default),
            Shader::Texture(_) => match uploaded {
                Some(Ok(texture)) => Ok(GpuShader::Texture(texture)),
                Some(Err(e)) => Err(e),
                None => Err(Error::Allocation),
            },
            Shader::Intermittent { src, predicate } => match GpuShader::realized(*src, uploaded) {
                Ok(inner) => Ok(GpuShader::Intermittent { src: Box::new(inner), predicate }),
                Err(e) => Err(e),
            },
        }
    }

    /// Decides whether the shader draws on `frame`.
    pub fn is_active(&self, frame: usize) -> (active: bool)
        ensures
            active == self.active(frame),
        decreases self,
    {
        match self {
            GpuShader::Default => true,
            GpuShader::Texture(_) => true,
            GpuShader::Intermittent { src, predicate } => predicate.test(frame) && src.is_active(
                frame,
            ),
        }
    }
}

impl Factory<Shader> for GpuShader {
    type Gpu = Option<Result<Texture, Error>>;

    /// Builds the GPU shader for `spec`. `gpu` is what came of uploading the
    /// image named by `spec.texture_source()`, or `None` where nothing was
    /// uploaded.
    fn produce(spec: Shader, gpu: Option<Result<Texture, Error>>) -> (shader: Result<
        GpuShader,
        Error,
    >)
        ensures
            shader == GpuShader::realized(spec, gpu),
        decreases spec,
    {
        match spec {
            Shader::Default => Ok(GpuShader::Default),
            Shader::Texture(_) => match gpu {
                Some(Ok(texture)) => Ok(GpuShader::Texture(texture)),
                Some(Err(e)) => Err(e),
                None => Err(Error::Allocation),
            },
            Shader::Intermittent { src, predicate } => match GpuShader::produce(*src, gpu) {
                Ok(inner) => Ok(GpuShader::Intermittent { src: Box::new(inner), predicate }),
                Err(e) => Err(e),
            },
        }
    }
}

/// A shader that needs no image is always realized, and one that needs an
/// image is realized exactly when the upload succeeded.
pub proof fn lemma_realized_when(spec: Shader, uploaded: Option<Result<Texture, Error>>)
    ensures
        GpuShader::realized(spec, uploaded) is Ok <==> (spec.source() is None || uploaded matches Some(
            Ok(_),
        )),
    decreases spec,
{
    match spec {
        Shader::Intermittent { src, predicate } => lemma_realized_when(*src, uploaded),
        _ => {},
    }
}

/// Moving a shader to the GPU never changes on which frames it draws.
pub proof fn lemma_realized_keeps_gates(
    spec: Shader,
    uploaded: Option<Result<Texture, Error>>,
    frame: usize,
)
    ensures
        GpuShader::realized(spec, uploaded) matches Ok(shader) ==> shader.active(frame)
            == spec.active(frame),
    decreases spec,
{
    match spec {
        Shader::Intermittent { src, predicate } => lemma_realized_keeps_gates(
            *src,
            uploaded,
            frame,
        ),
        _ => {},
    }
}

} // verus!

//! The render pipeline: GPU-resident layers, a ping-pong pair of render
//! targets, and the order in which draws reach them on each frame.
//!
//! The GPU itself is outside this crate. Whoever drives it hands the core
//! what the GPU made (textures and mesh buffers, by name, or the error that
//! came instead) and carries out, one by one, the steps that the core
//! decides on.

use vstd::prelude::*;
use crate::composition::{Composition, Layer};
use crate::errors::Error;
use crate::geom::{Color, Scalar};
use crate::gpu::{Factory, GpuMesh};
use crate::mesh::Mesh;
use crate::gpu::shaders::{GpuShader, Mipmaps, Shader, Texture, TextureFormat};

verus! {

/// What the GPU made for one layer, or why it could not.
#[derive(Clone, Copy, Debug, PartialEq, Eq)]
pub struct LayerResources {
    /// The upload of the image that the layer's shader samples; `None`
    /// where nothing was uploaded.
    pub texture: Option<Result<Texture, Error>>,
    /// The upload of the layer's tessellated mesh.
    pub mesh: Result<GpuMesh, Error>,
}

/// The GPU-resident counterpart of a layer.
#[derive(Debug, PartialEq)]
pub struct GpuLayer<C> {
    /// The mesh as it was described, kept for its scale over time.
    pub src: Mesh<C>,
    pub shader: GpuShader,
    /// The mesh on the GPU, drawn at the scale of the last step.
    pub cached_mesh: GpuMesh,
}

impl<C> GpuLayer<C> {
    /// The GPU layer of `spec`, given what the GPU made for it: the first
    /// failure in the order shader, mesh, or else the layer's own mesh with
    /// the realized shader and the uploaded mesh.
    pub open spec fn produced(spec: Layer<C>, gpu: LayerResources) -> Result<GpuLayer<C>, Error> {
        match GpuShader::realized(spec.shader(), gpu.texture) {
            Err(e) => Err(e),
            Ok(shader) => match gpu.mesh {
                Err(e) => Err(e),
                Ok(cached_mesh) => Ok(GpuLayer { src: spec.mesh(), shader, cached_mesh }),
            },
        }
    }

    /// The layer after a step to `frame`: the GPU mesh takes the scale that
    /// the described mesh has on that frame, and nothing else changes.
    pub open spec fn stepped(self, frame: usize) -> GpuLayer<C> {
        GpuLayer {
            src: self.src,
            shader: self.shader,
            cached_mesh: GpuMesh { id: self.cached_mesh.id, scale: self.src.scale_at(frame) },
        }
    }

    /// Whether the layer draws on `frame`.
    pub open spec fn active(self, frame: usize) -> bool {
        self.shader.active(frame)
    }

    /// Advances the layer to `frame`. This never fails.
    pub fn step(self, frame: usize) -> (layer: Result<GpuLayer<C>, Error>)
        ensures
            layer == Ok::<GpuLayer<C>, Error>(self.stepped(frame)),
    {
        let mut next = self;
        next.cached_mesh.scale = next.src.scale.tween(frame);
        Ok(next)
    }

    /// The draw command of the layer: its shader and its GPU mesh.
    pub fn render<'a>(&'a self) -> (cmd: (&'a GpuShader, &'a GpuMesh))
        ensures
            *cmd.0 == self.shader,
            *cmd.1 == self.cached_mesh,
    {
        (&self.shader, &self.cached_mesh)
    }
}

impl<C> Factory<Layer<C>> for GpuLayer<C> {
    type Gpu = LayerResources;

    /// Builds the GPU layer of `spec` from what the GPU made for it: the
    /// shader is realized first, then the mesh is taken, and the mesh as it
    /// was described is kept.
    fn produce(spec: Layer<C>, gpu: LayerResources) -> (layer: Result<GpuLayer<C>, Error>)
        ensures
            layer == GpuLayer::produced(spec, gpu),
    {
        let (shader, mesh) = spec.resolve();
        let shader = match GpuShader::produce(shader, gpu.texture) {
            Ok(shader) => shader,
            Err(e) => {
                return Err(e);
            },
        };
        let cached_mesh = match gpu.mesh {
            Ok(cached_mesh) => cached_mesh,
            Err(e) => {
                return Err(e);
            },
        };
        Ok(GpuLayer { src: mesh, shader, cached_mesh })
    }
}

/// A GPU layer is made exactly when its shader is realized and its mesh was
/// uploaded, and it then draws on the frames on which the layer it came
/// from draws.
pub proof fn lemma_produced_layer<C>(spec: Layer<C>, gpu: LayerResources, frame: usize)
    ensures
        GpuLayer::produced(spec, gpu) is Ok <==> (GpuShader::realized(spec.shader(), gpu.texture) is Ok
            && gpu.mesh is Ok),
        GpuLayer::produced(spec, gpu) matches Ok(layer) ==> {
            &&& layer.active(frame) == spec.active(frame)
            &&& layer.src == spec.mesh()
            &&& Ok::<GpuMesh, Error>(layer.cached_mesh) == gpu.mesh
        },
{
    crate::gpu::shaders::lemma_realized_keeps_gates(spec.shader(), gpu.texture, frame);
}

/// Stepping to a frame twice in a row leaves a layer as stepping to it once
/// does: the scale depends on the frame alone, not on the steps before.
pub proof fn lemma_layer_step_repeats<C>(layer: GpuLayer<C>, frame: usize, earlier: usize)
    ensures
        layer.stepped(frame).stepped(frame) == layer.stepped(frame),
        layer.stepped(earlier).stepped(frame) == layer.stepped(frame),
        layer.stepped(frame).cached_mesh.scale == layer.src.scale_at(frame),
{
}

/// The size of a buffer's render targets, in texels.
#[derive(Clone, Copy, Debug, PartialEq, Eq, Structural)]
pub struct BufferSpec {
    pub width: u32,
    pub height: u32,
}

/// How a copy between surfaces samples its source.
#[derive(Clone, Copy, Debug, PartialEq, Eq, Structural)]
pub enum Filter {
    Nearest,
    Linear,
}

/// A render target to allocate.
#[derive(Clone, Copy, Debug, PartialEq, Eq, Structural)]
pub struct TextureSpec {
    pub width: u32,
    pub height: u32,
    pub format: TextureFormat,
    pub mipmaps: Mipmaps,
    /// The color that the texture is cleared to once it is allocated.
    pub clear: Color,
}

impl TextureSpec {
    /// Whether `texture` has the size, the format and the mipmaps asked for.
    pub open spec fn describes(self, texture: Texture) -> bool {
        &&& texture.width == self.width
        &&& texture.height == self.height
        &&& texture.format == self.format
        &&& texture.mipmaps == self.mipmaps
    }

    /// Checks a texture against what was asked for.
    pub fn is_met_by(&self, texture: &Texture) -> (met: bool)
        ensures
            met == self.describes(*texture),
    {
        texture.width == self.width && texture.height == self.height && texture.format
            == self.format && texture.mipmaps == self.mipmaps
    }
}

impl BufferSpec {
    /// The render target that a buffer of this size needs twice over: of
    /// the buffer's size, with four single-precision channels and
    /// generated mipmaps, cleared to full transparency.
    pub open spec fn target_spec(self) -> TextureSpec {
        TextureSpec {
            width: self.width,
            height: self.height,
            format: TextureFormat::F32F32F32F32,
            mipmaps: Mipmaps::AutoGenerated,
            clear: Color::spec_transparent(),
        }
    }

    /// Whether `front` and `back` can be the two targets of a buffer of
    /// this size: both are as `target_spec` describes them, and they are
    /// two textures, not one.
    pub open spec fn fits(self, front: Texture, back: Texture) -> bool {
        &&& self.target_spec().describes(front)
        &&& self.target_spec().describes(back)
        &&& front.id != back.id
    }

    /// Describes the two render targets to allocate.
    pub fn target(&self) -> (texture: TextureSpec)
        ensures
            texture == self.target_spec(),
    {
        TextureSpec {
            width: self.width,
            height: self.height,
            format: TextureFormat::F32F32F32F32,
            mipmaps: Mipmaps::AutoGenerated,
            clear: Color::transparent(),
        }
    }
}

/// What the GPU made for a buffer, or why it could not.
#[derive(Clone, Copy, Debug, PartialEq, Eq)]
pub struct BufferResources {
    /// The first render target.
    pub front: Result<Texture, Error>,
    /// The second render target.
    pub back: Result<Texture, Error>,
    /// The upload of the full-frame rectangle.
    pub frame: Result<GpuMesh, Error>,
}

/// A ping-pong pair of render targets of one size, with the command that
/// presents the pair's contents.
///
/// The two targets have their roles by name: draws write into the front
/// target and read the back target. They are never one and the same
/// texture, so no draw reads what it writes.
#[derive(Debug, PartialEq)]
pub struct Buffer {
    front: Texture,
    back: Texture,
    blitter: (GpuShader, GpuMesh),
}

/// What is drawn on a frame, in order.
#[derive(Debug, PartialEq)]
pub struct DrawCtx<'a> {
    pub frame: usize,
    pub cmds: Vec<(&'a GpuShader, &'a GpuMesh)>,
}

/// One step of drawing a frame into a buffer.
#[derive(Debug, PartialEq)]
pub enum DrawStep<'a> {
    /// Draw `mesh` with `shader` into `target`; the shader may sample
    /// `secondary`, which holds what has been composed so far.
    Draw {
        shader: &'a GpuShader,
        mesh: &'a GpuMesh,
        frame: usize,
        target: Texture,
        secondary: Texture,
    },
    /// The shader of this command is gated off on this frame: draw nothing.
    Skip,
    /// Copy all of `from` onto all of `to`.
    Fill { from: Texture, to: Texture, filter: Filter },
    /// The frame is composed. These commands draw the buffer onto whatever
    /// surface the caller presents it on.
    Present(Vec<(&'a GpuShader, &'a GpuMesh)>),
}

impl Buffer {
    #[verifier::type_invariant]
    spec fn inv(self) -> bool {
        &&& self.front.id != self.back.id
        &&& self.front.width == self.back.width
        &&& self.front.height == self.back.height
        &&& self.front.format == TextureFormat::F32F32F32F32
        &&& self.back.format == TextureFormat::F32F32F32F32
        &&& self.front.mipmaps == Mipmaps::AutoGenerated
        &&& self.back.mipmaps == Mipmaps::AutoGenerated
        &&& self.blitter.0 == GpuShader::Texture(self.front)
    }

    /// The target that draws write into, and that the blitter presents.
    pub closed spec fn spec_front(&self) -> Texture {
        self.front
    }

    /// The target that draws read.
    pub closed spec fn spec_back(&self) -> Texture {
        self.back
    }

    /// The mesh of the blitter: the full-frame rectangle on the GPU.
    pub closed spec fn frame_mesh(self) -> GpuMesh {
        self.blitter.1
    }

    /// Why `produce` fails on these inputs, if it does: the first failure in
    /// the order front target, back target, frame mesh, or else
    /// `Error::Allocation` where the targets do not fit the size asked for.
    pub open spec fn failure(spec: BufferSpec, gpu: BufferResources) -> Option<Error> {
        match gpu.front {
            Err(e) => Some(e),
            Ok(front) => match gpu.back {
                Err(e) => Some(e),
                Ok(back) => match gpu.frame {
                    Err(e) => Some(e),
                    Ok(_) => if spec.fits(front, back) {
                        None
                    } else {
                        Some(Error::Allocation)
                    },
                },
            },
        }
    }

    /// The target that holds the composed frame: a texture of four
    /// single-precision channels with generated mipmaps.
    #[verifier::when_used_as_spec(spec_front)]
    pub fn front(&self) -> (texture: Texture)
        ensures
            texture == self.spec_front(),
            texture.format == TextureFormat::F32F32F32F32,
            texture.mipmaps == Mipmaps::AutoGenerated,
    {
        proof {
            use_type_invariant(self);
        }
        self.front
    }

    /// The target that draws read: a texture of the front target's size,
    /// and never the front target itself.
    #[verifier::when_used_as_spec(spec_back)]
    pub fn back(&self) -> (texture: Texture)
        ensures
            texture == self.spec_back(),
            texture.id != self.spec_front().id,
            texture.width == self.spec_front().width,
            texture.height == self.spec_front().height,
            texture.format == self.spec_front().format,
            texture.mipmaps == self.spec_front().mipmaps,
    {
        proof {
            use_type_invariant(self);
        }
        self.back
    }

    /// The same buffer with the roles of its targets exchanged.
    pub fn swap(self) -> (buffer: Buffer)
        ensures
            buffer.spec_front() == self.spec_back(),
            buffer.spec_back() == self.spec_front(),
            buffer.frame_mesh() == self.frame_mesh(),
    {
        proof {
            use_type_invariant(&self);
        }
        Buffer {
            front: self.back,
            back: self.front,
            blitter: (GpuShader::Texture(self.back), self.blitter.1),
        }
    }

    /// The commands that present the buffer: one, which samples the front
    /// target onto the full-frame rectangle.
    pub fn blitter<'a>(&'a self) -> (cmds: Vec<(&'a GpuShader, &'a GpuMesh)>)
        ensures
            self.presents(cmds@),
    {
        let mut cmds: Vec<(&'a GpuShader, &'a GpuMesh)> = Vec::new();
        cmds.push((&self.blitter.0, &self.blitter.1));
        proof {
            use_type_invariant(self);
        }
        cmds
    }

    /// Whether `cmds` is the blitter of this buffer.
    pub open spec fn presents(self, cmds: Seq<(&GpuShader, &GpuMesh)>) -> bool {
        &&& cmds.len() == 1
        &&& *cmds[0].0 == GpuShader::Texture(self.spec_front())
        &&& *cmds[0].1 == self.frame_mesh()
    }

    /// Whether `step` is the step at position `at` of drawing `ctx` into
    /// this buffer. The commands of `ctx` take two positions each, in their
    /// order: at the first the command is drawn into the front target with
    /// the back target to read from, unless its shader is gated off on the
    /// frame; at the second the front target is copied onto the back
    /// target, linearly filtered. After the last command comes the
    /// blitter.
    pub open spec fn step_at(self, ctx: DrawCtx, at: usize, step: DrawStep) -> bool {
        let i = at as int / 2;
        if i >= ctx.cmds@.len() {
            step matches DrawStep::Present(cmds) && self.presents(cmds@)
        } else {
            self.passes(ctx.cmds@[i], ctx.frame, at as int % 2 == 0, step)
        }
    }

    /// Whether `step` is what a command takes at one of its two positions:
    /// at the first it is drawn into the front target with the back target
    /// to read from, unless its shader is gated off on the frame; at the
    /// second the front target is copied onto the back target, linearly
    /// filtered.
    pub open spec fn passes(
        self,
        cmd: (&GpuShader, &GpuMesh),
        frame: usize,
        first: bool,
        step: DrawStep,
    ) -> bool {
        if first {
            if cmd.0.active(frame) {
                step == (DrawStep::Draw {
                    shader: cmd.0,
                    mesh: cmd.1,
                    frame,
                    target: self.spec_front(),
                    secondary: self.spec_back(),
                })
            } else {
                step == DrawStep::Skip
            }
        } else {
            step == (DrawStep::Fill {
                from: self.spec_front(),
                to: self.spec_back(),
                filter: Filter::Linear,
            })
        }
    }

    /// Decides what a command takes at the first or the second of its two
    /// positions.
    pub fn pass<'a>(&self, cmd: (&'a GpuShader, &'a GpuMesh), frame: usize, first: bool) -> (step:
        DrawStep<'a>)
        ensures
            self.passes(cmd, frame, first, step),
            step matches DrawStep::Draw { target, secondary, .. } ==> target.id != secondary.id,
            step matches DrawStep::Fill { from, to, .. } ==> from.id != to.id,
    {
        proof {
            use_type_invariant(self);
        }
        if !first {
            DrawStep::Fill { from: self.front, to: self.back, filter: Filter::Linear }
        } else if cmd.0.is_active(frame) {
            DrawStep::Draw {
                shader: cmd.0,
                mesh: cmd.1,
                frame,
                target: self.front,
                secondary: self.back,
            }
        } else {
            DrawStep::Skip
        }
    }

    /// Decides the step at position `at` of drawing `ctx` into the buffer,
    /// given how the step before it ended (`Ok` before the first step).
    ///
    /// A step that failed ends the frame: its error is returned, and no
    /// further step is decided.
    pub fn draw<'a>(&'a self, ctx: &DrawCtx<'a>, at: usize, last: Result<(), Error>) -> (step:
        Result<DrawStep<'a>, Error>)
        ensures
            last matches Err(e) ==> step == Err::<DrawStep<'a>, Error>(e),
            last is Ok ==> (step matches Ok(s) && self.step_at(*ctx, at, s)),
            step matches Ok(DrawStep::Draw { target, secondary, .. }) ==> target.id != secondary.id,
            step matches Ok(DrawStep::Fill { from, to, .. }) ==> from.id != to.id,
    {
        if let Err(e) = last {
            return Err(e);
        }
        let i: usize = at / 2;
        if i >= ctx.cmds.len() {
            return Ok(DrawStep::Present(self.blitter()));
        }
        Ok(self.pass(ctx.cmds[i], ctx.frame, at % 2 == 0))
    }
}

impl Factory<BufferSpec> for Buffer {
    type Gpu = BufferResources;

    /// Builds the buffer from what the GPU made for `spec.target()`, asked
    /// for twice, and for the full-frame rectangle. The blitter of the
    /// buffer samples the front target on that rectangle.
    fn produce(spec: BufferSpec, gpu: BufferResources) -> (buffer: Result<Buffer, Error>)
        ensures
            match Buffer::failure(spec, gpu) {
                Some(e) => buffer == Err::<Buffer, Error>(e),
                None => {
                    &&& buffer matches Ok(b)
                    &&& Ok::<Texture, Error>(b.spec_front()) == gpu.front
                    &&& Ok::<Texture, Error>(b.spec_back()) == gpu.back
                    &&& Ok::<GpuMesh, Error>(b.frame_mesh()) == gpu.frame
                    &&& spec.fits(b.spec_front(), b.spec_back())
                    &&& b.spec_front().width == spec.width
                    &&& b.spec_front().height == spec.height
                },
            },
    {
        let front = match gpu.front {
            Ok(front) => front,
            Err(e) => {
                return Err(e);
            },
        };
        let back = match gpu.back {
            Ok(back) => back,
            Err(e) => {
                return Err(e);
            },
        };
        let frame = match gpu.frame {
            Ok(frame) => frame,
            Err(e) => {
                return Err(e);
            },
        };
        let target = spec.target();
        if !target.is_met_by(&front) || !target.is_met_by(&back) || front.id == back.id {
            return Err(Error::Allocation);
        }
        Ok(Buffer { front, back, blitter: (GpuShader::Texture(front), frame) })
    }
}

/// A buffer is made exactly when the GPU made both targets and the frame
/// mesh, and the targets are two textures, each as the buffer asks for it.
pub proof fn lemma_buffer_failure(spec: BufferSpec, gpu: BufferResources)
    ensures
        Buffer::failure(spec, gpu) is None <==> (gpu.front is Ok && gpu.back is Ok && gpu.frame is Ok
            && spec.fits(gpu.front->Ok_0, gpu.back->Ok_0)),
{
}

/// A scene to render: the size of the output and the layers to compose.
#[derive(Debug, PartialEq)]
pub struct RenderSpec<C> {
    pub width: u32,
    pub height: u32,
    pub composition: Composition<C>,
}

/// What the GPU made for a scene: for each layer of the composition, in
/// the composition's order, and for the buffer.
#[derive(Debug, PartialEq)]
pub struct RenderResources {
    pub layers: Vec<LayerResources>,
    pub buffer: BufferResources,
}

/// The first failure among the GPU layers of `layers`, in their order, if
/// any of them fails. `gpu` holds the GPU's answers, one for each layer.
pub open spec fn layers_failure<C>(layers: Seq<Layer<C>>, gpu: Seq<LayerResources>) -> Option<Error>
    decreases layers.len(),
{
    if layers.len() == 0 || gpu.len() == 0 {
        None
    } else {
        match layers_failure(layers.drop_last(), gpu.drop_last()) {
            Some(e) => Some(e),
            None => match GpuLayer::produced(layers.last(), gpu.last()) {
                Err(e) => Some(e),
                Ok(_) => None,
            },
        }
    }
}

/// A rendering session: the GPU layers of a composition, bottom to top,
/// and the buffer that they are composed in.
#[derive(Debug, PartialEq)]
pub struct Render<C> {
    layers: Vec<GpuLayer<C>>,
    buffer: Buffer,
}

impl<C> Render<C> {
    /// The GPU layers, bottom to top.
    pub closed spec fn layers(self) -> Seq<GpuLayer<C>> {
        self.layers@
    }

    /// The buffer that the layers are composed in.
    pub closed spec fn target(self) -> Buffer {
        self.buffer
    }

    /// Whether this is the session of the scene `spec`, built from the
    /// GPU's answers `gpu`: it holds the GPU layer of each layer of the
    /// composition, in the composition's order, and the buffer of the two
    /// targets and the frame mesh that the GPU made, the front target of
    /// the size of the output.
    pub open spec fn realizes(self, spec: RenderSpec<C>, gpu: RenderResources) -> bool {
        &&& self.layers().len() == spec.composition@.len()
        &&& forall|i: int|
            0 <= i < spec.composition@.len() ==> Ok::<GpuLayer<C>, Error>(
                #[trigger] self.layers()[i],
            ) == GpuLayer::produced(spec.composition@[i], gpu.layers@[i])
        &&& Ok::<Texture, Error>(self.target().spec_front()) == gpu.buffer.front
        &&& Ok::<Texture, Error>(self.target().spec_back()) == gpu.buffer.back
        &&& Ok::<GpuMesh, Error>(self.target().frame_mesh()) == gpu.buffer.frame
        &&& (BufferSpec { width: spec.width, height: spec.height }).fits(
            self.target().spec_front(),
            self.target().spec_back(),
        )
        &&& self.target().spec_front().width == spec.width
        &&& self.target().spec_front().height == spec.height
    }

    /// Why `produce` fails on these inputs, if it does: `Error::Allocation`
    /// where the GPU answered for another number of layers than the
    /// composition has; or else the first failure among the layers, in the
    /// composition's order; or else the failure of the buffer.
    pub open spec fn failure(spec: RenderSpec<C>, gpu: RenderResources) -> Option<Error> {
        if gpu.layers@.len() != spec.composition@.len() {
            Some(Error::Allocation)
        } else {
            match layers_failure(spec.composition@, gpu.layers@) {
                Some(e) => Some(e),
                None => Buffer::failure(
                    BufferSpec { width: spec.width, height: spec.height },
                    gpu.buffer,
                ),
            }
        }
    }
}

impl<C> Factory<RenderSpec<C>> for Render<C> {
    type Gpu = RenderResources;

    /// Builds the session for a scene from what the GPU made for it: one
    /// GPU layer for each layer of the composition, in the composition's
    /// order, and one buffer of the size of the output.
    fn produce(spec: RenderSpec<C>, gpu: RenderResources) -> (render: Result<Render<C>, Error>)
        ensures
            match Render::failure(spec, gpu) {
                Some(e) => render == Err::<Render<C>, Error>(e),
                None => render matches Ok(r) && r.realizes(spec, gpu),
            },
    {
        let width = spec.width;
        let height = spec.height;
        let described = spec.composition.layers();
        if gpu.layers.len() != described.len() {
            return Err(Error::Allocation);
        }
        let mut layers: Vec<GpuLayer<C>> = Vec::new();
        for layer in it: described
            invariant
                it.seq() == spec.composition@,
                gpu.layers@.len() == spec.composition@.len(),
                layers@.len() == it.index(),
                layers_failure(
                    spec.composition@.take(it.index()),
                    gpu.layers@.take(it.index()),
                ) is None,
                forall|i: int|
                    0 <= i < it.index() ==> Ok::<GpuLayer<C>, Error>(#[trigger] layers@[i])
                        == GpuLayer::produced(spec.composition@[i], gpu.layers@[i]),
        {
            let done: usize = layers.len();
            proof {
                let k = done as int;
                assert(spec.composition@.take(k + 1).drop_last() =~= spec.composition@.take(k));
                assert(gpu.layers@.take(k + 1).drop_last() =~= gpu.layers@.take(k));
            }
            match GpuLayer::produce(layer, gpu.layers[done]) {
                Ok(made) => {
                    layers.push(made);
                },
                Err(e) => {
                    proof {
                        lemma_failure_stays(spec.composition@, gpu.layers@, done as int + 1);
                    }
                    return Err(e);
                },
            }
        }
        proof {
            assert(spec.composition@.take(spec.composition@.len() as int) =~= spec.composition@);
            assert(gpu.layers@.take(gpu.layers@.len() as int) =~= gpu.layers@);
        }
        match Buffer::produce(BufferSpec { width, height }, gpu.buffer) {
            Ok(buffer) => Ok(Render { layers, buffer }),
            Err(e) => Err(e),
        }
    }
}

impl<C> Render<C> {
    /// Whether `self` is `before` after a step to `frame`: every layer is
    /// stepped to the frame, and the buffer is the same.
    pub open spec fn follows(self, before: Render<C>, frame: usize) -> bool {
        &&& self.layers().len() == before.layers().len()
        &&& forall|i: int|
            0 <= i < before.layers().len() ==> (#[trigger] self.layers()[i])
                == before.layers()[i].stepped(frame)
        &&& self.target() == before.target()
    }

    /// Whether `cmds` holds the draw commands of the layers, bottom to top:
    /// for each layer its shader and its GPU mesh.
    pub open spec fn commands(self, cmds: Seq<(&GpuShader, &GpuMesh)>) -> bool {
        &&& cmds.len() == self.layers().len()
        &&& forall|i: int|
            0 <= i < cmds.len() ==> {
                &&& *(#[trigger] cmds[i]).0 == self.layers()[i].shader
                &&& *cmds[i].1 == self.layers()[i].cached_mesh
            }
    }

    /// Whether `step` is the step at position `at` of rendering `frame`.
    /// The layers take two positions each, bottom to top: at the first the
    /// layer is drawn into the front target with the back target to read
    /// from, unless it is gated off on the frame; at the second the front
    /// target is copied onto the back target, linearly filtered. After the
    /// last layer comes the blitter of the buffer.
    pub open spec fn step_at(self, frame: usize, at: usize, step: DrawStep) -> bool {
        let i = at as int / 2;
        if i >= self.layers().len() {
            step matches DrawStep::Present(cmds) && self.target().presents(cmds@)
        } else {
            self.target().passes(
                (&self.layers()[i].shader, &self.layers()[i].cached_mesh),
                frame,
                at as int % 2 == 0,
                step,
            )
        }
    }

    /// Whether rendering is drawing the commands of the layers into the
    /// buffer: the step at every position is the one that the buffer takes
    /// at that position for `ctx`, which holds the frame and the commands.
    pub open spec fn draws(self, ctx: DrawCtx, at: usize, step: DrawStep) -> bool {
        self.commands(ctx.cmds@) ==> (self.step_at(ctx.frame, at, step) <==> self.target().step_at(
            ctx,
            at,
            step,
        ))
    }

    /// Advances every layer to `frame`. This never fails.
    pub fn step(self, frame: usize) -> (next: Result<Render<C>, Error>)
        ensures
            next matches Ok(r) && r.follows(self, frame),
    {
        let buffer = self.buffer;
        let mut layers: Vec<GpuLayer<C>> = Vec::new();
        for layer in it: self.layers
            invariant
                it.seq() == self.layers(),
                layers@.len() == it.index(),
                forall|i: int|
                    0 <= i < it.index() ==> (#[trigger] layers@[i]) == self.layers()[i].stepped(
                        frame,
                    ),
        {
            match layer.step(frame) {
                Ok(stepped) => {
                    layers.push(stepped);
                },
                Err(e) => {
                    return Err(e);
                },
            }
        }
        Ok(Render { layers, buffer })
    }

    /// The draw commands of the layers, bottom to top.
    pub fn cmds<'a>(&'a self) -> (cmds: Vec<(&'a GpuShader, &'a GpuMesh)>)
        ensures
            self.commands(cmds@),
    {
        let mut cmds: Vec<(&'a GpuShader, &'a GpuMesh)> = Vec::new();
        let mut i: usize = 0;
        while i < self.layers.len()
            invariant
                i <= self.layers@.len(),
                cmds@.len() == i,
                forall|j: int|
                    0 <= j < i ==> {
                        &&& *(#[trigger] cmds@[j]).0 == self.layers@[j].shader
                        &&& *cmds@[j].1 == self.layers@[j].cached_mesh
                    },
            decreases self.layers@.len() - i,
        {
            cmds.push(self.layers[i].render());
            i += 1;
        }
        cmds
    }

    /// Decides the step at position `at` of rendering `frame`, given how the
    /// step before it ended (`Ok` before the first step).
    ///
    /// A step that failed ends the frame: its error is returned, and no
    /// further step is decided.
    pub fn render<'a>(&'a self, frame: usize, at: usize, last: Result<(), Error>) -> (step: Result<
        DrawStep<'a>,
        Error,
    >)
        ensures
            last matches Err(e) ==> step == Err::<DrawStep<'a>, Error>(e),
            last is Ok ==> (step matches Ok(s) && self.step_at(frame, at, s)),
            step matches Ok(DrawStep::Draw { target, secondary, .. }) ==> target.id != secondary.id,
            step matches Ok(DrawStep::Fill { from, to, .. }) ==> from.id != to.id,
    {
        if let Err(e) = last {
            return Err(e);
        }
        let i: usize = at / 2;
        if i >= self.layers.len() {
            return Ok(DrawStep::Present(self.buffer.blitter()));
        }
        Ok(self.buffer.pass(self.layers[i].render(), frame, at % 2 == 0))
    }

    /// The texture that holds the composed frame.
    pub fn buffer(&self) -> (texture: Texture)
        ensures
            texture == self.target().spec_front(),
    {
        self.buffer.front()
    }
}

/// Rendering a frame is drawing the commands of the layers, in their
/// order, into the buffer of the session.
pub proof fn lemma_render_draws_the_commands<C>(
    render: Render<C>,
    ctx: DrawCtx,
    at: usize,
    step: DrawStep,
)
    ensures
        render.draws(ctx, at, step),
{
}

/// Stepping a session to a frame twice in a row leaves it as stepping to
/// the frame once does: every mesh has the scale of that frame both times.
pub proof fn lemma_step_repeats<C>(
    start: Render<C>,
    once: Render<C>,
    twice: Render<C>,
    frame: usize,
)
    requires
        once.follows(start, frame),
        twice.follows(once, frame),
    ensures
        twice.layers() == once.layers(),
        twice.target() == once.target(),
        forall|i: int|
            0 <= i < start.layers().len() ==> (#[trigger] twice.layers()[i]).cached_mesh.scale
                == start.layers()[i].src.scale_at(frame),
{
}

/// The steps of a frame follow the layers: the layer at index `i` is
/// decided on at position `2 * i`, where it is drawn if it is not gated off
/// and skipped if it is, and the copy that follows it stands at position
/// `2 * i + 1`.
pub proof fn lemma_steps_follow_layers<C>(render: Render<C>, frame: usize, i: int, step: DrawStep)
    requires
        0 <= i < render.layers().len(),
        2 * i + 1 <= usize::MAX,
    ensures
        render.step_at(frame, (2 * i) as usize, step) ==> (if render.layers()[i].active(frame) {
            step matches DrawStep::Draw { shader, mesh, .. } && *shader == render.layers()[i].shader
                && *mesh == render.layers()[i].cached_mesh
        } else {
            step is Skip
        }),
        render.step_at(frame, (2 * i + 1) as usize, step) ==> step is Fill,
{
}

/// The order of the layers is kept from the composition to the draws: in
/// the session of a scene, the position `2 * i` of every frame belongs to
/// the layer that was added to the composition as its layer `i`. There the
/// mesh that the GPU made for that layer is drawn if the layer draws on the
/// frame, and nothing is drawn if it does not.
pub proof fn lemma_order_is_kept_end_to_end<C>(
    render: Render<C>,
    spec: RenderSpec<C>,
    gpu: RenderResources,
    frame: usize,
    i: int,
    step: DrawStep,
)
    requires
        render.realizes(spec, gpu),
        0 <= i < spec.composition@.len(),
        2 * i <= usize::MAX,
        render.step_at(frame, (2 * i) as usize, step),
    ensures
        render.layers()[i].src == spec.composition@[i].mesh(),
        spec.composition@[i].active(frame) ==> (step matches DrawStep::Draw { mesh, .. } && Ok::<
            GpuMesh,
            Error,
        >(*mesh) == gpu.layers@[i].mesh),
        !spec.composition@[i].active(frame) ==> step is Skip,
{
    lemma_produced_layer(spec.composition@[i], gpu.layers@[i], frame);
}

/// Whether layer `i` is the first whose GPU layer fails, and fails with `e`.
pub open spec fn fails_first<C>(
    layers: Seq<Layer<C>>,
    gpu: Seq<LayerResources>,
    i: int,
    e: Error,
) -> bool {
    &&& 0 <= i < layers.len()
    &&& GpuLayer::produced(layers[i], gpu[i]) == Err::<GpuLayer<C>, Error>(e)
    &&& forall|j: int| 0 <= j < i ==> (#[trigger] GpuLayer::produced(layers[j], gpu[j])) is Ok
}

/// The layers of a scene fail as the first of them that fails, and do not
/// fail where none of them does.
pub proof fn lemma_layers_fail_as_the_first<C>(layers: Seq<Layer<C>>, gpu: Seq<LayerResources>)
    requires
        layers.len() == gpu.len(),
    ensures
        layers_failure(layers, gpu) is None <==> (forall|i: int|
            0 <= i < layers.len() ==> (#[trigger] GpuLayer::produced(layers[i], gpu[i])) is Ok),
        layers_failure(layers, gpu) matches Some(e) ==> exists|i: int|
            fails_first(layers, gpu, i, e),
    decreases layers.len(),
{
    if layers.len() > 0 {
        let front = layers.drop_last();
        let answers = gpu.drop_last();
        let last = layers.len() - 1;
        lemma_layers_fail_as_the_first(front, answers);
        assert(forall|j: int| 0 <= j < last ==> front[j] == layers[j] && answers[j] == gpu[j]);
        match layers_failure(front, answers) {
            Some(e) => {
                let i = choose|i: int| fails_first(front, answers, i, e);
                assert(fails_first(layers, gpu, i, e));
            },
            None => {
                match GpuLayer::produced(layers[last], gpu[last]) {
                    Err(e) => {
                        assert(fails_first(layers, gpu, last, e));
                    },
                    Ok(_) => {},
                }
            },
        }
    }
}

/// A failure among the first `k` layers is the failure of them all: later
/// layers do not change which error comes first.
pub proof fn lemma_failure_stays<C>(layers: Seq<Layer<C>>, gpu: Seq<LayerResources>, k: int)
    requires
        layers.len() == gpu.len(),
        0 <= k <= layers.len(),
        layers_failure(layers.take(k), gpu.take(k)) is Some,
    ensures
        layers_failure(layers, gpu) == layers_failure(layers.take(k), gpu.take(k)),
    decreases layers.len(),
{
    if k == layers.len() {
        assert(layers.take(k) =~= layers);
        assert(gpu.take(k) =~= gpu);
    } else {
        assert(layers.drop_last().take(k) =~= layers.take(k));
        assert(gpu.drop_last().take(k) =~= gpu.take(k));
        lemma_failure_stays(layers.drop_last(), gpu.drop_last(), k);
    }
}

} // verus!

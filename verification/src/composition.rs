//! Layers and the ordered composition that a scene is built from.

use vstd::prelude::*;
use vstd::std_specs::convert::FromSpecImpl;
use crate::mesh::Mesh;
use crate::gpu::shaders::Shader;

verus! {

/// Whether `into` is what `value` converts into.
pub open spec fn converts<A: Into<B>, B>(value: A, into: B) -> bool {
    call_ensures(<A as Into<B>>::into, (value,), into)
}

/// One visual contribution: a mesh, with the shader that draws it.
#[derive(Debug, PartialEq)]
pub enum Layer<C> {
    /// A mesh drawn with the default shader.
    Mesh(Mesh<C>),
    ShadedMesh { shader: Shader, mesh: Mesh<C> },
}

impl<C> Layer<C> {
    /// The shader that draws the layer: its own, or the default one.
    pub open spec fn shader(self) -> Shader {
        match self {
            Layer::Mesh(_) => Shader::Default,
            Layer::ShadedMesh { shader, mesh } => shader,
        }
    }

    /// The mesh of the layer.
    pub open spec fn mesh(self) -> Mesh<C> {
        match self {
            Layer::Mesh(mesh) => mesh,
            Layer::ShadedMesh { shader, mesh } => mesh,
        }
    }

    /// The layer frozen into the single frame `render_frame`: the same
    /// mesh, under a shader that draws as the layer's own does on that
    /// frame and not at all on any other.
    pub open spec fn frozen(self, render_frame: usize) -> Layer<C> {
        Layer::ShadedMesh { shader: self.shader().frozen(render_frame), mesh: self.mesh() }
    }

    /// Whether the layer draws on `frame`.
    pub open spec fn active(self, frame: usize) -> bool {
        self.shader().active(frame)
    }

    /// Reads the mesh of the layer.
    pub fn mesh_ref(&self) -> (mesh: &Mesh<C>)
        ensures
            *mesh == self.mesh(),
    {
        match self {
            Layer::Mesh(mesh) => mesh,
            Layer::ShadedMesh { shader, mesh } => mesh,
        }
    }

    /// Reads the shader of the layer; a bare mesh has none of its own.
    pub fn shader_ref(&self) -> (shader: Option<&Shader>)
        ensures
            match shader {
                Some(own) => self is ShadedMesh && *own == self.shader(),
                None => self is Mesh,
            },
    {
        match self {
            Layer::Mesh(_) => None,
            Layer::ShadedMesh { shader, mesh } => Some(shader),
        }
    }

    /// Parts a layer into the shader that draws it and its mesh.
    pub fn resolve(self) -> (parts: (Shader, Mesh<C>))
        ensures
            parts.0 == self.shader(),
            parts.1 == self.mesh(),
    {
        match self {
            Layer::Mesh(mesh) => (Shader::Default, mesh),
            Layer::ShadedMesh { shader, mesh } => (shader, mesh),
        }
    }

    /// Freezes one layer into the frame `render_frame`.
    pub fn freeze_frame(src: Layer<C>, render_frame: usize) -> (layer: Layer<C>)
        ensures
            layer == src.frozen(render_frame),
    {
        match src {
            Layer::Mesh(mesh) => Layer::ShadedMesh {
                shader: Shader::Default.once(render_frame),
                mesh,
            },
            Layer::ShadedMesh { shader, mesh } => Layer::ShadedMesh {
                shader: shader.once(render_frame),
                mesh,
            },
        }
    }

    /// Freezes every layer of `src`, in order, into the frame
    /// `render_frame`: whatever `src` converts into, each of its layers is
    /// frozen.
    pub fn once<I: Into<LayerInput<C>>>(src: I, render_frame: usize) -> (layers: Vec<Layer<C>>)
        ensures
            exists|input: LayerInput<C>|
                {
                    &&& #[trigger] converts(src, input)
                    &&& layers@.len() == input.layers().len()
                    &&& forall|i: int|
                        0 <= i < layers@.len() ==> (#[trigger] layers@[i])
                            == input.layers()[i].frozen(render_frame)
                },
    {
        let input: LayerInput<C> = src.into();
        assert(converts(src, input));
        input.freeze(render_frame)
    }
}

/// A layer frozen into a frame draws on that frame if it would have drawn
/// there anyway, and on no other frame; a bare mesh frozen into a frame
/// draws on that frame alone.
pub proof fn lemma_once_draws_on_its_frame<C>(layer: Layer<C>, render_frame: usize, frame: usize)
    ensures
        layer.frozen(render_frame).active(frame) == (frame == render_frame && layer.active(frame)),
        layer is Mesh ==> layer.frozen(render_frame).active(frame) == (frame == render_frame),
        layer.frozen(render_frame).mesh() == layer.mesh(),
{
}

impl<C> From<Mesh<C>> for Layer<C> {
    fn from(mesh: Mesh<C>) -> (layer: Layer<C>) {
        Layer::Mesh(mesh)
    }
}

impl<C> FromSpecImpl<Mesh<C>> for Layer<C> {
    open spec fn obeys_from_spec() -> bool {
        true
    }

    open spec fn from_spec(mesh: Mesh<C>) -> Layer<C> {
        Layer::Mesh(mesh)
    }
}

impl<C> From<(Shader, Mesh<C>)> for Layer<C> {
    fn from(pair: (Shader, Mesh<C>)) -> (layer: Layer<C>) {
        Layer::ShadedMesh { shader: pair.0, mesh: pair.1 }
    }
}

impl<C> FromSpecImpl<(Shader, Mesh<C>)> for Layer<C> {
    open spec fn obeys_from_spec() -> bool {
        true
    }

    open spec fn from_spec(pair: (Shader, Mesh<C>)) -> Layer<C> {
        Layer::ShadedMesh { shader: pair.0, mesh: pair.1 }
    }
}

impl<C> From<Shader> for Layer<C> {
    /// A bare shader is a full-screen effect: it draws the full-frame
    /// rectangle.
    fn from(shader: Shader) -> (layer: Layer<C>)
        ensures
            layer is ShadedMesh,
            layer.shader() == shader,
            layer.mesh().is_frame(),
    {
        Layer::ShadedMesh { shader, mesh: Mesh::frame() }
    }
}

impl<C> FromSpecImpl<Shader> for Layer<C> {
    open spec fn obeys_from_spec() -> bool {
        false
    }

    open spec fn from_spec(shader: Shader) -> Layer<C> {
        arbitrary()
    }
}

/// One layer or many, for the calls that take either.
#[derive(Debug, PartialEq)]
pub enum LayerInput<C> {
    Single(Layer<C>),
    Many(Vec<Layer<C>>),
}

impl<C> LayerInput<C> {
    /// The layers that the input holds, first to last.
    pub open spec fn layers(self) -> Seq<Layer<C>> {
        match self {
            LayerInput::Single(layer) => seq![layer],
            LayerInput::Many(layers) => layers@,
        }
    }

    /// Takes the first layer out of the input, if there is one. What is left
    /// keeps its order.
    pub fn next(&mut self) -> (output: Option<Layer<C>>)
        ensures
            old(self).layers().len() == 0 ==> output is None && final(self).layers().len() == 0,
            old(self).layers().len() > 0 ==> output == Some(old(self).layers()[0])
                && final(self).layers() == old(self).layers().skip(1),
    {
        let mut tmp = LayerInput::Many(Vec::new());
        core::mem::swap(self, &mut tmp);
        match tmp {
            LayerInput::Single(layer) => {
                Some(layer)
            },
            LayerInput::Many(mut ts) => {
                if ts.len() == 0 {
                    None
                } else {
                    let first = ts.remove(0);
                    *self = LayerInput::Many(ts);
                    Some(first)
                }
            },
        }
    }

    /// Freezes every layer of the input, in order, into the frame
    /// `render_frame`.
    pub fn freeze(self, render_frame: usize) -> (layers: Vec<Layer<C>>)
        ensures
            layers@.len() == self.layers().len(),
            forall|i: int|
                0 <= i < layers@.len() ==> (#[trigger] layers@[i]) == self.layers()[i].frozen(
                    render_frame,
                ),
    {
        let mut layers: Vec<Layer<C>> = Vec::new();
        for layer in it: self.into_layers()
            invariant
                it.seq() == self.layers(),
                layers@.len() == it.index(),
                forall|i: int|
                    0 <= i < layers@.len() ==> (#[trigger] layers@[i]) == self.layers()[i].frozen(
                        render_frame,
                    ),
        {
            layers.push(Layer::freeze_frame(layer, render_frame));
        }
        layers
    }

    /// All the layers of the input, first to last.
    pub fn into_layers(self) -> (layers: Vec<Layer<C>>)
        ensures
            layers@ == self.layers(),
    {
        match self {
            LayerInput::Single(layer) => {
                let mut layers: Vec<Layer<C>> = Vec::new();
                layers.push(layer);
                layers
            },
            LayerInput::Many(layers) => layers,
        }
    }
}

impl<C> From<Layer<C>> for LayerInput<C> {
    fn from(layer: Layer<C>) -> (input: LayerInput<C>) {
        LayerInput::Single(layer)
    }
}

impl<C> FromSpecImpl<Layer<C>> for LayerInput<C> {
    open spec fn obeys_from_spec() -> bool {
        true
    }

    open spec fn from_spec(layer: Layer<C>) -> LayerInput<C> {
        LayerInput::Single(layer)
    }
}

impl<C> From<Mesh<C>> for LayerInput<C> {
    fn from(mesh: Mesh<C>) -> (input: LayerInput<C>) {
        LayerInput::Single(Layer::Mesh(mesh))
    }
}

impl<C> FromSpecImpl<Mesh<C>> for LayerInput<C> {
    open spec fn obeys_from_spec() -> bool {
        true
    }

    open spec fn from_spec(mesh: Mesh<C>) -> LayerInput<C> {
        LayerInput::Single(Layer::Mesh(mesh))
    }
}

impl<C> From<Shader> for LayerInput<C> {
    /// A bare shader is one layer: a full-screen effect.
    fn from(shader: Shader) -> (input: LayerInput<C>)
        ensures
            input matches LayerInput::Single(layer) && layer is ShadedMesh && layer.shader()
                == shader && layer.mesh().is_frame(),
    {
        LayerInput::Single(Layer::from(shader))
    }
}

impl<C> FromSpecImpl<Shader> for LayerInput<C> {
    open spec fn obeys_from_spec() -> bool {
        false
    }

    open spec fn from_spec(shader: Shader) -> LayerInput<C> {
        arbitrary()
    }
}

impl<C> From<(Shader, Mesh<C>)> for LayerInput<C> {
    fn from(pair: (Shader, Mesh<C>)) -> (input: LayerInput<C>) {
        LayerInput::Single(Layer::ShadedMesh { shader: pair.0, mesh: pair.1 })
    }
}

impl<C> FromSpecImpl<(Shader, Mesh<C>)> for LayerInput<C> {
    open spec fn obeys_from_spec() -> bool {
        true
    }

    open spec fn from_spec(pair: (Shader, Mesh<C>)) -> LayerInput<C> {
        LayerInput::Single(Layer::ShadedMesh { shader: pair.0, mesh: pair.1 })
    }
}

impl<C> From<Vec<Layer<C>>> for LayerInput<C> {
    fn from(layers: Vec<Layer<C>>) -> (input: LayerInput<C>) {
        LayerInput::Many(layers)
    }
}

impl<C> FromSpecImpl<Vec<Layer<C>>> for LayerInput<C> {
    open spec fn obeys_from_spec() -> bool {
        true
    }

    open spec fn from_spec(layers: Vec<Layer<C>>) -> LayerInput<C> {
        LayerInput::Many(layers)
    }
}

impl<C> From<Vec<Mesh<C>>> for LayerInput<C> {
    /// Many bare meshes, each a layer of its own, in their order.
    fn from(meshes: Vec<Mesh<C>>) -> (input: LayerInput<C>)
        ensures
            input.layers().len() == meshes@.len(),
            forall|i: int|
                0 <= i < meshes@.len() ==> (#[trigger] input.layers()[i]) == Layer::Mesh(meshes@[i]),
    {
        let mut layers: Vec<Layer<C>> = Vec::new();
        for mesh in it: meshes
            invariant
                it.seq() == meshes@,
                layers@.len() == it.index(),
                forall|i: int|
                    0 <= i < it.index() ==> (#[trigger] layers@[i]) == Layer::Mesh(meshes@[i]),
        {
            layers.push(Layer::Mesh(mesh));
        }
        LayerInput::Many(layers)
    }
}

impl<C> FromSpecImpl<Vec<Mesh<C>>> for LayerInput<C> {
    open spec fn obeys_from_spec() -> bool {
        false
    }

    open spec fn from_spec(meshes: Vec<Mesh<C>>) -> LayerInput<C> {
        arbitrary()
    }
}

/// An ordered stack of layers, in the order in which they were added.
#[derive(Debug, PartialEq)]
pub struct Composition<C> {
    layers: Vec<Layer<C>>,
}

impl<C> View for Composition<C> {
    type V = Seq<Layer<C>>;

    closed spec fn view(&self) -> Seq<Layer<C>> {
        self.layers@
    }
}

impl<C> Default for Composition<C> {
    fn default() -> (composition: Composition<C>)
        ensures
            composition@ == Seq::<Layer<C>>::empty(),
    {
        Composition { layers: Vec::new() }
    }
}

impl<C> Composition<C> {
    /// The composition without layers.
    pub fn new() -> (composition: Composition<C>)
        ensures
            composition@ == Seq::<Layer<C>>::empty(),
    {
        Composition { layers: Vec::new() }
    }

    /// Adds the full-frame rectangle, colored by `colorer`, on top.
    pub fn solid_layer(self, colorer: C) -> (composition: Composition<C>)
        ensures
            composition@.len() == self@.len() + 1,
            composition@.subrange(0, self@.len() as int) == self@,
            composition@.last() is Mesh,
            composition@.last().mesh().colorer == Some(colorer),
            (Mesh { colorer: None, ..composition@.last().mesh() }).is_frame(),
    {
        let mesh: Mesh<C> = Mesh::frame();
        let composition = self.add(mesh.with_colorer(colorer));
        composition
    }

    /// Adds one layer or many on top, in their order: whatever `layer`
    /// converts into, its layers follow those that are there.
    pub fn add<I: Into<LayerInput<C>>>(self, layer: I) -> (composition: Composition<C>)
        ensures
            exists|input: LayerInput<C>|
                #[trigger] converts(layer, input) && composition@ == self@ + input.layers(),
    {
        let input: LayerInput<C> = layer.into();
        assert(converts(layer, input));
        self.extend(input)
    }

    /// Adds the layers of `input` on top, in their order.
    pub fn extend(self, input: LayerInput<C>) -> (composition: Composition<C>)
        ensures
            composition@ == self@ + input.layers(),
    {
        let mut layers = self.layers;
        let mut added = input.into_layers();
        layers.append(&mut added);
        Composition { layers }
    }

    /// Reads the layers, bottom to top.
    pub fn as_layers(&self) -> (layers: &Vec<Layer<C>>)
        ensures
            layers@ == self@,
    {
        &self.layers
    }

    /// Gives up the layers, bottom to top.
    pub fn layers(self) -> (layers: Vec<Layer<C>>)
        ensures
            layers@ == self@,
    {
        self.layers
    }
}

/// The layers of a composition that started empty and took `inputs` by
/// `add`, one after the other.
pub open spec fn stacked<C>(inputs: Seq<Seq<Layer<C>>>) -> Seq<Layer<C>>
    decreases inputs.len(),
{
    if inputs.len() == 0 {
        Seq::empty()
    } else {
        stacked(inputs.drop_last()) + inputs.last()
    }
}

/// How many layers stand in the first `k` of `inputs`.
pub open spec fn count_before<C>(inputs: Seq<Seq<Layer<C>>>, k: int) -> int
    decreases k,
{
    if k <= 0 {
        0
    } else {
        count_before(inputs, k - 1) + inputs[k - 1].len()
    }
}

/// However the layers are handed to `add`, singly or in batches, the
/// composition holds as many layers as were added, and holds them in the
/// order in which they were added: layer `j` of input `k` stands after all
/// the layers of the inputs before `k`, at offset `j`.
pub proof fn lemma_add_keeps_count_and_order<C>(inputs: Seq<Seq<Layer<C>>>, k: int, j: int)
    requires
        0 <= k < inputs.len(),
        0 <= j < inputs[k].len(),
    ensures
        stacked(inputs).len() == count_before(inputs, inputs.len() as int),
        0 <= count_before(inputs, k) + j < stacked(inputs).len(),
        stacked(inputs)[count_before(inputs, k) + j] == inputs[k][j],
    decreases inputs.len(),
{
    let n = inputs.len() as int;
    let front = inputs.drop_last();
    lemma_count_before_prefix(inputs, front, n - 1);
    lemma_stacked_len(front);
    lemma_count_before_nonneg(inputs, k);
    if k < n - 1 {
        lemma_add_keeps_count_and_order(front, k, j);
        lemma_count_before_prefix(inputs, front, k);
    }
}

proof fn lemma_stacked_len<C>(inputs: Seq<Seq<Layer<C>>>)
    ensures
        stacked(inputs).len() == count_before(inputs, inputs.len() as int),
    decreases inputs.len(),
{
    if inputs.len() > 0 {
        let front = inputs.drop_last();
        lemma_stacked_len(front);
        lemma_count_before_prefix(inputs, front, inputs.len() - 1);
    }
}

proof fn lemma_count_before_nonneg<C>(inputs: Seq<Seq<Layer<C>>>, k: int)
    ensures
        0 <= count_before(inputs, k),
    decreases k,
{
    if k > 0 {
        lemma_count_before_nonneg(inputs, k - 1);
    }
}

proof fn lemma_count_before_prefix<C>(
    inputs: Seq<Seq<Layer<C>>>,
    front: Seq<Seq<Layer<C>>>,
    k: int,
)
    requires
        k <= front.len() <= inputs.len(),
        forall|i: int| 0 <= i < front.len() ==> front[i] == inputs[i],
    ensures
        count_before(front, k) == count_before(inputs, k),
    decreases k,
{
    if k > 0 {
        lemma_count_before_prefix(inputs, front, k - 1);
    }
}

} // verus!

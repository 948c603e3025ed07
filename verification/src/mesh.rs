//! Meshes: a shape to tessellate, how to color and draw it, and a scale
//! that may change with the frame.

use vstd::prelude::*;
use vstd::std_specs::convert::FromSpecImpl;
use crate::errors::Error;
use crate::geom::{Color, Outline, Point, Scalar, Shape, rect_corners};
use crate::gpu::tessellation::{
    FillCall,
    FillJob,
    FillVertex,
    StrokeCall,
    StrokeJob,
    StrokeVertex,
    Tessellate,
    Tessellation,
    VertexBuffers,
};
use crate::tween::Tween;

verus! {

/// Whether a mesh is the interior of its shape or the line around it.
#[derive(Clone, Copy, Debug, PartialEq, Eq, Structural)]
pub enum DrawMode {
    Fill,
    Stroke { thickness: Scalar },
}

/// The call of the tessellator that a mesh needs.
#[derive(Debug, PartialEq)]
pub enum Job {
    Fill(FillJob),
    Stroke(StrokeJob),
}

/// A `Job` as contracts speak of it.
pub enum Call {
    Fill(FillCall),
    Stroke(StrokeCall),
}

impl View for Job {
    type V = Call;

    open spec fn view(&self) -> Call {
        match *self {
            Job::Fill(job) => Call::Fill(job@),
            Job::Stroke(job) => Call::Stroke(job@),
        }
    }
}

/// What came of a call of the tessellator. A fill can fail; a stroke
/// cannot.
#[derive(Debug, PartialEq)]
pub enum Outcome {
    Fill(Result<VertexBuffers<FillVertex>, Error>),
    Stroke(VertexBuffers<StrokeVertex>),
}

/// A shape to render, with the function that colors it, the way it is
/// drawn, and its scale as a function of the frame.
///
/// `C` is the type of the colorer: a function from a position to a color.
/// A mesh without a colorer has transparent vertices.
#[derive(Debug, PartialEq)]
pub struct Mesh<C> {
    pub shape: Shape,
    pub colorer: Option<C>,
    pub draw_mode: DrawMode,
    pub scale: Tween,
}

impl<C: Clone> Clone for Mesh<C> {
    /// A copy describes the same shape, is drawn in the same mode and has
    /// the same scale on every frame; its colorer is a clone of this
    /// mesh's colorer.
    fn clone(&self) -> (copy: Mesh<C>)
        ensures
            copy.shape.outline() == self.shape.outline(),
            copy.draw_mode == self.draw_mode,
            forall|frame: usize| copy.scale_at(frame) == self.scale_at(frame),
            match (self.colorer, copy.colorer) {
                (Some(colorer), Some(copied)) => cloned(colorer, copied),
                (None, None) => true,
                _ => false,
            },
    {
        let colorer = match &self.colorer {
            Some(colorer) => Some(colorer.clone()),
            None => None,
        };
        Mesh {
            shape: self.shape.clone(),
            colorer,
            draw_mode: self.draw_mode,
            scale: self.scale.clone(),
        }
    }
}

impl<C> From<Shape> for Mesh<C> {
    /// The filled mesh of a shape, with no colorer and a scale of 1.0 on
    /// every frame.
    fn from(shape: Shape) -> (mesh: Mesh<C>) {
        Mesh { shape, colorer: None, draw_mode: DrawMode::Fill, scale: Tween::identity() }
    }
}

impl<C> FromSpecImpl<Shape> for Mesh<C> {
    open spec fn obeys_from_spec() -> bool {
        true
    }

    open spec fn from_spec(shape: Shape) -> Mesh<C> {
        Mesh {
            shape,
            colorer: None,
            draw_mode: DrawMode::Fill,
            scale: Tween::Constant(Scalar::spec_one()),
        }
    }
}

impl<C> Mesh<C> {
    /// Whether this is the filled mesh of `shape` with no colorer and no
    /// animation.
    pub open spec fn is_plain(self, outline: Outline) -> bool {
        &&& self.shape.outline() == outline
        &&& self.colorer is None
        &&& self.draw_mode == DrawMode::Fill
        &&& self.scale == Tween::Constant(Scalar::spec_one())
    }

    /// Whether this is the full-frame rectangle with no colorer and no
    /// animation.
    pub open spec fn is_frame(self) -> bool {
        self.is_plain(Outline::Polygon(rect_corners(Scalar::spec_one(), Scalar::spec_one())))
    }

    /// The call of the tessellator that this mesh needs: the fill or the
    /// stroke of its shape, as its draw mode says.
    pub open spec fn call(self) -> Call {
        match self.draw_mode {
            DrawMode::Fill => Call::Fill(self.shape.fill_call()),
            DrawMode::Stroke { thickness } => Call::Stroke(self.shape.stroke_call(thickness)),
        }
    }

    /// The scale of the mesh on frame `frame`.
    pub open spec fn scale_at(self, frame: usize) -> Scalar {
        self.scale.value_at(frame)
    }

    /// The filled mesh of a shape, with no colorer and a scale of 1.0 on
    /// every frame.
    pub fn new(shape: Shape) -> (mesh: Mesh<C>)
        ensures
            mesh == (Mesh::<C> {
                shape,
                colorer: None,
                draw_mode: DrawMode::Fill,
                scale: Tween::Constant(Scalar::spec_one()),
            }),
            mesh.is_plain(shape.outline()),
    {
        Mesh { shape, colorer: None, draw_mode: DrawMode::Fill, scale: Tween::identity() }
    }

    /// The mesh of the full-frame rectangle.
    pub fn frame() -> (mesh: Mesh<C>)
        ensures
            mesh.is_frame(),
    {
        Mesh::new(Shape::frame())
    }

    /// The same mesh, colored by `colorer`.
    pub fn with_colorer(self, colorer: C) -> (mesh: Mesh<C>)
        ensures
            mesh == (Mesh { colorer: Some(colorer), ..self }),
    {
        Mesh { colorer: Some(colorer), ..self }
    }

    /// The same mesh, drawn in another mode.
    pub fn with_draw_mode(self, draw_mode: DrawMode) -> (mesh: Mesh<C>)
        ensures
            mesh == (Mesh { draw_mode, ..self }),
    {
        Mesh { draw_mode, ..self }
    }

    /// The same mesh, with another scale over time.
    pub fn with_scale(self, scale: Tween) -> (mesh: Mesh<C>)
        ensures
            mesh == (Mesh { scale, ..self }),
    {
        Mesh { scale, ..self }
    }

    /// Says which call of the tessellator this mesh needs.
    pub fn job(&self) -> (job: Job)
        ensures
            job@ == self.call(),
    {
        match self.draw_mode {
            DrawMode::Fill => Job::Fill(self.shape.tessellate_fill()),
            DrawMode::Stroke { thickness } => Job::Stroke(self.shape.tessellate_stroke(thickness)),
        }
    }
}

impl<C: Fn(Point) -> Color> Mesh<C> {
    /// Whether `t` is the mesh of `buffer` colored as this mesh asks: by
    /// its colorer, or transparent where it has none.
    pub open spec fn paints<V: crate::gpu::tessellation::PathVertex>(
        self,
        t: Tessellation,
        buffer: VertexBuffers<V>,
    ) -> bool {
        match self.colorer {
            Some(colorer) => t.colors(buffer, &colorer),
            None => t.tints(buffer, Color::spec_transparent()),
        }
    }

    /// What `tessellate` returns on success: the mesh of the buffers that
    /// came back, if they are of the kind that the draw mode asks for.
    pub open spec fn tessellated(self, outcome: Outcome, t: Tessellation) -> bool {
        match (self.draw_mode, outcome) {
            (DrawMode::Fill, Outcome::Fill(Ok(buffer))) => buffer.indexed() && self.paints(
                t,
                buffer,
            ),
            (DrawMode::Stroke { .. }, Outcome::Stroke(buffer)) => buffer.indexed() && self.paints(
                t,
                buffer,
            ),
            _ => false,
        }
    }

    /// Whether `tessellate` succeeds on `outcome`.
    pub open spec fn tessellates(self, outcome: Outcome) -> bool {
        match (self.draw_mode, outcome) {
            (DrawMode::Fill, Outcome::Fill(Ok(buffer))) => buffer.indexed(),
            (DrawMode::Stroke { .. }, Outcome::Stroke(buffer)) => buffer.indexed(),
            _ => false,
        }
    }

    /// Turns what the tessellator made of `self.job()` into the colored
    /// mesh that goes to the GPU.
    ///
    /// Fails with the tessellator's own error where the fill failed, and
    /// with `Error::Tessellation` where the buffers are of the wrong kind
    /// for the draw mode or break the index contract.
    pub fn tessellate(&self, outcome: Outcome) -> (result: Result<Tessellation, Error>)
        requires
            self.colorer matches Some(colorer) ==> forall|p: Point| call_requires(colorer, (p,)),
        ensures
            result is Ok <==> self.tessellates(outcome),
            result matches Ok(t) ==> t.wf() && self.tessellated(outcome, t),
            result matches Err(e) ==> e == (match outcome {
                Outcome::Fill(Err(cause)) => cause,
                _ => Error::Tessellation,
            }),
    {
        let blank = |p: Point| -> (c: Color)
            ensures
                c == Color::spec_transparent(),
            { Color::transparent() };
        match (self.draw_mode, outcome) {
            (DrawMode::Fill, Outcome::Fill(Ok(buffer))) => match &self.colorer {
                Some(colorer) => Tessellation::from_fill_buffer(buffer, colorer),
                None => Tessellation::from_fill_buffer(buffer, &blank),
            },
            (DrawMode::Stroke { .. }, Outcome::Stroke(buffer)) => match &self.colorer {
                Some(colorer) => Tessellation::from_stroke_buffer(buffer, colorer),
                None => Tessellation::from_stroke_buffer(buffer, &blank),
            },
            (_, Outcome::Fill(Err(cause))) => Err(cause),
            _ => Err(Error::Tessellation),
        }
    }
}

} // verus!

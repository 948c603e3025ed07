//! From vector outlines to triangle meshes with a color on every vertex.
//!
//! The triangulation itself is the work of a tessellator outside this
//! crate. This module says which call the tessellator is to make for a
//! shape, and turns the vertex and index buffers that come back into a
//! `Tessellation`, after checking them against the vertex and index
//! contract that every draw relies on.

use vstd::prelude::*;
use vstd::std_specs::convert::FromSpecImpl;
use crate::errors::Error;
use crate::geom::{Color, Ellipse, Point, Poly, Scalar, Shape};

verus! {

/// The bits of 0.00001, the flattening tolerance of an ellipse that names
/// none.
pub const ELLIPSE_TOLERANCE_BITS: u32 = 0x3727_C5AC;

/// The flattening tolerance of an ellipse: its own, or the default.
pub open spec fn tolerance_of(ellipse: Ellipse) -> Scalar {
    match ellipse.tolerance {
        Some(tolerance) => tolerance,
        None => Scalar { bits: ELLIPSE_TOLERANCE_BITS },
    }
}

/// How to stroke an outline.
#[derive(Clone, Copy, Debug, PartialEq, Eq, Structural)]
pub struct StrokeOptions {
    pub line_width: Scalar,
    /// The flattening tolerance; `None` leaves it to the tessellator.
    pub tolerance: Option<Scalar>,
}

/// A fill, as a call of the tessellator.
#[derive(Debug, PartialEq)]
pub enum FillJob {
    /// The circle-specialized fill.
    Circle { center: Point, radius: Scalar, tolerance: Scalar },
    /// The fill of a general ellipse; `radii` holds its width and height.
    Ellipse { center: Point, radii: Point, rotation: Scalar, tolerance: Scalar },
    /// The fill of a polyline, its vertex sequence taken as closed.
    Polyline { vertices: Vec<Point> },
}

/// A `FillJob` as contracts speak of it.
pub enum FillCall {
    Circle { center: Point, radius: Scalar, tolerance: Scalar },
    Ellipse { center: Point, radii: Point, rotation: Scalar, tolerance: Scalar },
    Polyline { vertices: Seq<Point> },
}

impl View for FillJob {
    type V = FillCall;

    open spec fn view(&self) -> FillCall {
        match *self {
            FillJob::Circle { center, radius, tolerance } => FillCall::Circle {
                center,
                radius,
                tolerance,
            },
            FillJob::Ellipse { center, radii, rotation, tolerance } => FillCall::Ellipse {
                center,
                radii,
                rotation,
                tolerance,
            },
            FillJob::Polyline { vertices } => FillCall::Polyline { vertices: vertices@ },
        }
    }
}

/// A stroke, as a call of the tessellator.
#[derive(Debug, PartialEq)]
pub enum StrokeJob {
    Circle { center: Point, radius: Scalar, options: StrokeOptions },
    Ellipse { center: Point, radii: Point, rotation: Scalar, options: StrokeOptions },
    /// The stroke of a polyline; `closed` connects the last vertex back to
    /// the first.
    Polyline { vertices: Vec<Point>, closed: bool, options: StrokeOptions },
}

/// A `StrokeJob` as contracts speak of it.
pub enum StrokeCall {
    Circle { center: Point, radius: Scalar, options: StrokeOptions },
    Ellipse { center: Point, radii: Point, rotation: Scalar, options: StrokeOptions },
    Polyline { vertices: Seq<Point>, closed: bool, options: StrokeOptions },
}

impl View for StrokeJob {
    type V = StrokeCall;

    open spec fn view(&self) -> StrokeCall {
        match *self {
            StrokeJob::Circle { center, radius, options } => StrokeCall::Circle {
                center,
                radius,
                options,
            },
            StrokeJob::Ellipse { center, radii, rotation, options } => StrokeCall::Ellipse {
                center,
                radii,
                rotation,
                options,
            },
            StrokeJob::Polyline { vertices, closed, options } => StrokeCall::Polyline {
                vertices: vertices@,
                closed,
                options,
            },
        }
    }
}

/// The fill of an ellipse: the circle algorithm where it has no height,
/// the ellipse algorithm where it has one.
pub open spec fn ellipse_fill(ellipse: Ellipse) -> FillCall {
    match ellipse.height {
        Some(height) => FillCall::Ellipse {
            center: ellipse.center,
            radii: Point { x: ellipse.width, y: height },
            rotation: ellipse.rotation,
            tolerance: tolerance_of(ellipse),
        },
        None => FillCall::Circle {
            center: ellipse.center,
            radius: ellipse.width,
            tolerance: tolerance_of(ellipse),
        },
    }
}

/// The stroke of an ellipse at the given width.
pub open spec fn ellipse_stroke(ellipse: Ellipse, thickness: Scalar) -> StrokeCall {
    let options = StrokeOptions { line_width: thickness, tolerance: Some(tolerance_of(ellipse)) };
    match ellipse.height {
        Some(height) => StrokeCall::Ellipse {
            center: ellipse.center,
            radii: Point { x: ellipse.width, y: height },
            rotation: ellipse.rotation,
            options,
        },
        None => StrokeCall::Circle { center: ellipse.center, radius: ellipse.width, options },
    }
}

/// The fill of a vertex outline.
pub open spec fn outline_fill(vertices: Seq<Point>) -> FillCall {
    FillCall::Polyline { vertices }
}

/// The stroke of a vertex outline at the given width: always closed.
pub open spec fn outline_stroke(vertices: Seq<Point>, thickness: Scalar) -> StrokeCall {
    StrokeCall::Polyline {
        vertices,
        closed: true,
        options: StrokeOptions { line_width: thickness, tolerance: None },
    }
}

/// A shape that the tessellation engine can fill and stroke.
pub trait Tessellate {
    /// Plans the triangulation of the shape's filled interior.
    fn tessellate_fill(&self) -> FillJob;

    /// Plans the outline geometry of the shape at the given stroke width.
    fn tessellate_stroke(&self, thickness: Scalar) -> StrokeJob;
}

/// Reads the tolerance of an ellipse, falling back on the default.
fn tolerance(ellipse: &Ellipse) -> (tolerance: Scalar)
    ensures
        tolerance == tolerance_of(*ellipse),
{
    match ellipse.tolerance {
        Some(tolerance) => tolerance,
        None => Scalar::from_bits(ELLIPSE_TOLERANCE_BITS),
    }
}

impl Tessellate for Ellipse {
    fn tessellate_fill(&self) -> (job: FillJob)
        ensures
            job@ == ellipse_fill(*self),
    {
        match self.height {
            Some(height) => FillJob::Ellipse {
                center: self.center,
                radii: Point::new(self.width, height),
                rotation: self.rotation,
                tolerance: tolerance(self),
            },
            None => FillJob::Circle {
                center: self.center,
                radius: self.width,
                tolerance: tolerance(self),
            },
        }
    }

    fn tessellate_stroke(&self, thickness: Scalar) -> (job: StrokeJob)
        ensures
            job@ == ellipse_stroke(*self, thickness),
    {
        let options = StrokeOptions { line_width: thickness, tolerance: Some(tolerance(self)) };
        match self.height {
            Some(height) => StrokeJob::Ellipse {
                center: self.center,
                radii: Point::new(self.width, height),
                rotation: self.rotation,
                options,
            },
            None => StrokeJob::Circle { center: self.center, radius: self.width, options },
        }
    }
}

/// Whether `vertices` is what the outline `poly` hands out as its
/// vertices.
pub open spec fn outlines<P: Poly>(poly: &P, vertices: Vec<Point>) -> bool {
    call_ensures(P::vertices, (poly,), vertices)
}

impl<P: Poly> Tessellate for P {
    fn tessellate_fill(&self) -> (job: FillJob)
        ensures
            exists|vertices: Vec<Point>| #[trigger]
                outlines(self, vertices) && job@ == outline_fill(vertices@),
    {
        let vertices = self.vertices();
        assert(outlines(self, vertices));
        FillJob::Polyline { vertices }
    }

    fn tessellate_stroke(&self, thickness: Scalar) -> (job: StrokeJob)
        ensures
            exists|vertices: Vec<Point>| #[trigger]
                outlines(self, vertices) && job@ == outline_stroke(vertices@, thickness),
    {
        let vertices = self.vertices();
        assert(outlines(self, vertices));
        StrokeJob::Polyline {
            vertices,
            closed: true,
            options: StrokeOptions { line_width: thickness, tolerance: None },
        }
    }
}

impl Shape {
    /// The call that fills this shape.
    pub open spec fn fill_call(&self) -> FillCall {
        match *self {
            Shape::Ellipse(ellipse) => ellipse_fill(ellipse),
            Shape::Polygon(polygon) => outline_fill(polygon@),
        }
    }

    /// The call that strokes this shape at the width `thickness`.
    pub open spec fn stroke_call(&self, thickness: Scalar) -> StrokeCall {
        match *self {
            Shape::Ellipse(ellipse) => ellipse_stroke(ellipse, thickness),
            Shape::Polygon(polygon) => outline_stroke(polygon@, thickness),
        }
    }
}

impl Tessellate for Shape {
    fn tessellate_fill(&self) -> (job: FillJob)
        ensures
            job@ == self.fill_call(),
    {
        match self {
            Shape::Ellipse(ellipse) => ellipse.tessellate_fill(),
            Shape::Polygon(polygon) => polygon.tessellate_fill(),
        }
    }

    fn tessellate_stroke(&self, thickness: Scalar) -> (job: StrokeJob)
        ensures
            job@ == self.stroke_call(thickness),
    {
        match self {
            Shape::Ellipse(ellipse) => ellipse.tessellate_stroke(thickness),
            Shape::Polygon(polygon) => polygon.tessellate_stroke(thickness),
        }
    }
}

/// A vertex as the fill tessellator hands it out.
#[derive(Clone, Copy, Debug, PartialEq, Eq, Structural)]
pub struct FillVertex {
    pub position: Point,
    pub normal: Point,
}

/// A vertex as the stroke tessellator hands it out.
#[derive(Clone, Copy, Debug, PartialEq, Eq, Structural)]
pub struct StrokeVertex {
    pub position: Point,
    pub normal: Point,
}

/// What the core reads of a tessellator's vertex.
pub trait PathVertex {
    spec fn position_of(&self) -> Point;

    spec fn normal_of(&self) -> Point;

    fn position(&self) -> (p: Point)
        ensures
            p == self.position_of(),
    ;

    fn normal(&self) -> (n: Point)
        ensures
            n == self.normal_of(),
    ;
}

impl PathVertex for FillVertex {
    open spec fn position_of(&self) -> Point {
        self.position
    }

    open spec fn normal_of(&self) -> Point {
        self.normal
    }

    fn position(&self) -> (p: Point) {
        self.position
    }

    fn normal(&self) -> (n: Point) {
        self.normal
    }
}

impl PathVertex for StrokeVertex {
    open spec fn position_of(&self) -> Point {
        self.position
    }

    open spec fn normal_of(&self) -> Point {
        self.normal
    }

    fn position(&self) -> (p: Point) {
        self.position
    }

    fn normal(&self) -> (n: Point) {
        self.normal
    }
}

/// The vertex and index data that a tessellator wrote.
#[derive(Debug, PartialEq)]
pub struct VertexBuffers<V> {
    pub vertices: Vec<V>,
    pub indices: Vec<u16>,
}

impl<V> VertexBuffers<V> {
    /// The index contract: the indices come in triangles, and each names a
    /// vertex of the buffer.
    pub open spec fn indexed(self) -> bool {
        &&& self.indices@.len() % 3 == 0
        &&& forall|k: int|
            0 <= k < self.indices@.len() ==> (#[trigger] self.indices@[k]) < self.vertices@.len()
    }

    /// Checks the index contract.
    pub fn is_indexed(&self) -> (ok: bool)
        ensures
            ok == self.indexed(),
    {
        if self.indices.len() % 3 != 0 {
            return false;
        }
        let count: usize = self.vertices.len();
        let mut k: usize = 0;
        while k < self.indices.len()
            invariant
                k <= self.indices@.len(),
                count == self.vertices@.len(),
                forall|j: int| 0 <= j < k ==> (#[trigger] self.indices@[j]) < count,
            decreases self.indices@.len() - k,
        {
            if self.indices[k] as usize >= count {
                return false;
            }
            k += 1;
        }
        true
    }
}

/// A vertex as the GPU reads it: where it is and what color it has.
#[derive(Clone, Copy, Debug, PartialEq, Eq, Structural)]
pub struct GpuVertex {
    pub position: Point,
    pub color: Color,
}

impl From<(Point, Color)> for GpuVertex {
    fn from(pair: (Point, Color)) -> (vertex: GpuVertex) {
        GpuVertex { position: pair.0, color: pair.1 }
    }
}

impl FromSpecImpl<(Point, Color)> for GpuVertex {
    open spec fn obeys_from_spec() -> bool {
        true
    }

    open spec fn from_spec(pair: (Point, Color)) -> GpuVertex {
        GpuVertex { position: pair.0, color: pair.1 }
    }
}

/// A vertex normal as the GPU reads it.
#[derive(Clone, Copy, Debug, PartialEq, Eq)]
pub struct GpuNormal {
    pub normal: (Scalar, Scalar, Scalar),
}

/// The normal of the plane vector `n`, which has no depth.
pub open spec fn flat_normal(n: Point) -> GpuNormal {
    GpuNormal { normal: (n.x, n.y, Scalar::spec_zero()) }
}

/// A triangle mesh: vertices with their colors, one normal for each vertex,
/// and the indices of the triangles' corners.
#[derive(Debug, PartialEq)]
pub struct Tessellation {
    pub vertices: Vec<GpuVertex>,
    pub normals: Vec<GpuNormal>,
    pub indices: Vec<u32>,
}

impl Default for Tessellation {
    fn default() -> (t: Tessellation)
        ensures
            t.vertices@.len() == 0,
            t.normals@.len() == 0,
            t.indices@.len() == 0,
            t.wf(),
    {
        Tessellation { vertices: Vec::new(), normals: Vec::new(), indices: Vec::new() }
    }
}

impl Tessellation {
    /// The vertex and index contract: there is one normal for each vertex,
    /// the index count is a multiple of 3, and every index names a vertex.
    pub open spec fn wf(self) -> bool {
        &&& self.normals@.len() == self.vertices@.len()
        &&& self.indices@.len() % 3 == 0
        &&& forall|k: int|
            0 <= k < self.indices@.len() ==> (#[trigger] self.indices@[k]) < self.vertices@.len()
    }

    /// Whether this mesh is what `buffer` holds, vertex for vertex and
    /// index for index, with each vertex colored by `colorer` at its own
    /// position and each normal laid flat.
    pub open spec fn colors<V: PathVertex, C: Fn(Point) -> Color>(
        self,
        buffer: VertexBuffers<V>,
        colorer: &C,
    ) -> bool {
        &&& self.vertices@.len() == buffer.vertices@.len()
        &&& self.normals@.len() == buffer.vertices@.len()
        &&& self.indices@.len() == buffer.indices@.len()
        &&& forall|i: int|
            0 <= i < buffer.vertices@.len() ==> {
                &&& (#[trigger] self.vertices@[i]).position == buffer.vertices@[i].position_of()
                &&& call_ensures(
                    colorer,
                    (buffer.vertices@[i].position_of(),),
                    self.vertices@[i].color,
                )
            }
        &&& forall|i: int|
            0 <= i < buffer.vertices@.len() ==> (#[trigger] self.normals@[i]) == flat_normal(
                buffer.vertices@[i].normal_of(),
            )
        &&& forall|k: int|
            0 <= k < buffer.indices@.len() ==> (#[trigger] self.indices@[k]) == buffer.indices@[k]
    }

    /// Whether this mesh is what `buffer` holds, vertex for vertex and
    /// index for index, with every vertex of the one color `color` and each
    /// normal laid flat.
    pub open spec fn tints<V: PathVertex>(self, buffer: VertexBuffers<V>, color: Color) -> bool {
        &&& self.vertices@.len() == buffer.vertices@.len()
        &&& self.normals@.len() == buffer.vertices@.len()
        &&& self.indices@.len() == buffer.indices@.len()
        &&& forall|i: int|
            0 <= i < buffer.vertices@.len() ==> (#[trigger] self.vertices@[i]) == (GpuVertex {
                position: buffer.vertices@[i].position_of(),
                color,
            })
        &&& forall|i: int|
            0 <= i < buffer.vertices@.len() ==> (#[trigger] self.normals@[i]) == flat_normal(
                buffer.vertices@[i].normal_of(),
            )
        &&& forall|k: int|
            0 <= k < buffer.indices@.len() ==> (#[trigger] self.indices@[k]) == buffer.indices@[k]
    }

    /// The number of vertices.
    pub fn vertex_count(&self) -> (n: usize)
        ensures
            n == self.vertices@.len(),
    {
        self.vertices.len()
    }

    /// The number of indices.
    pub fn index_count(&self) -> (n: usize)
        ensures
            n == self.indices@.len(),
    {
        self.indices.len()
    }

    /// Checks the vertex and index contract.
    pub fn is_wf(&self) -> (ok: bool)
        ensures
            ok == self.wf(),
    {
        if self.normals.len() != self.vertices.len() || self.indices.len() % 3 != 0 {
            return false;
        }
        let count: usize = self.vertices.len();
        let mut k: usize = 0;
        while k < self.indices.len()
            invariant
                k <= self.indices@.len(),
                count == self.vertices@.len(),
                forall|j: int| 0 <= j < k ==> (#[trigger] self.indices@[j]) < count,
            decreases self.indices@.len() - k,
        {
            if self.indices[k] as usize >= count {
                return false;
            }
            k += 1;
        }
        true
    }

    fn from_buffer<V: PathVertex, C: Fn(Point) -> Color>(
        buffer: VertexBuffers<V>,
        colorer: &C,
    ) -> (result: Result<Tessellation, Error>)
        requires
            forall|p: Point| call_requires(colorer, (p,)),
        ensures
            result is Ok <==> buffer.indexed(),
            result matches Ok(t) ==> t.wf() && t.colors(buffer, colorer),
            result matches Err(e) ==> e == Error::Tessellation,
    {
        if !buffer.is_indexed() {
            return Err(Error::Tessellation);
        }
        let mut tessellation = Tessellation::default();
        let mut i: usize = 0;
        while i < buffer.vertices.len()
            invariant
                i <= buffer.vertices@.len(),
                forall|p: Point| call_requires(colorer, (p,)),
                tessellation.vertices@.len() == i,
                tessellation.normals@.len() == i,
                tessellation.indices@.len() == 0,
                forall|j: int|
                    0 <= j < i ==> {
                        &&& (#[trigger] tessellation.vertices@[j]).position
                            == buffer.vertices@[j].position_of()
                        &&& call_ensures(
                            colorer,
                            (buffer.vertices@[j].position_of(),),
                            tessellation.vertices@[j].color,
                        )
                    },
                forall|j: int|
                    0 <= j < i ==> (#[trigger] tessellation.normals@[j]) == flat_normal(
                        buffer.vertices@[j].normal_of(),
                    ),
            decreases buffer.vertices@.len() - i,
        {
            let point = buffer.vertices[i].position();
            let normal = buffer.vertices[i].normal();
            let color = colorer(point);
            tessellation.vertices.push(GpuVertex::from((point, color)));
            tessellation.normals.push(GpuNormal { normal: (normal.x, normal.y, Scalar::zero()) });
            i += 1;
        }
        let mut k: usize = 0;
        while k < buffer.indices.len()
            invariant
                k <= buffer.indices@.len(),
                buffer.indexed(),
                tessellation.vertices@.len() == buffer.vertices@.len(),
                tessellation.normals@.len() == buffer.vertices@.len(),
                tessellation.indices@.len() == k,
                forall|j: int|
                    0 <= j < buffer.vertices@.len() ==> {
                        &&& (#[trigger] tessellation.vertices@[j]).position
                            == buffer.vertices@[j].position_of()
                        &&& call_ensures(
                            colorer,
                            (buffer.vertices@[j].position_of(),),
                            tessellation.vertices@[j].color,
                        )
                    },
                forall|j: int|
                    0 <= j < buffer.vertices@.len() ==> (#[trigger] tessellation.normals@[j])
                        == flat_normal(buffer.vertices@[j].normal_of()),
                forall|j: int|
                    0 <= j < k ==> (#[trigger] tessellation.indices@[j]) == buffer.indices@[j],
            decreases buffer.indices@.len() - k,
        {
            tessellation.indices.push(buffer.indices[k] as u32);
            k += 1;
        }
        Ok(tessellation)
    }

    /// Builds the mesh of a fill from the buffers that the fill tessellator
    /// wrote, asking `colorer` for the color of every vertex at that
    /// vertex's position.
    ///
    /// Fails, with `Error::Tessellation`, exactly when the buffers break
    /// the index contract.
    pub fn from_fill_buffer<C: Fn(Point) -> Color>(
        buffer: VertexBuffers<FillVertex>,
        colorer: &C,
    ) -> (result: Result<Tessellation, Error>)
        requires
            forall|p: Point| call_requires(colorer, (p,)),
        ensures
            result is Ok <==> buffer.indexed(),
            result matches Ok(t) ==> t.wf() && t.colors(buffer, colorer),
            result matches Err(e) ==> e == Error::Tessellation,
    {
        Tessellation::from_buffer(buffer, colorer)
    }

    /// Builds the mesh of a stroke from the buffers that the stroke
    /// tessellator wrote, coloring as `from_fill_buffer` does.
    ///
    /// Fails, with `Error::Tessellation`, exactly when the buffers break
    /// the index contract.
    pub fn from_stroke_buffer<C: Fn(Point) -> Color>(
        buffer: VertexBuffers<StrokeVertex>,
        colorer: &C,
    ) -> (result: Result<Tessellation, Error>)
        requires
            forall|p: Point| call_requires(colorer, (p,)),
        ensures
            result is Ok <==> buffer.indexed(),
            result matches Ok(t) ==> t.wf() && t.colors(buffer, colorer),
            result matches Err(e) ==> e == Error::Tessellation,
    {
        Tessellation::from_buffer(buffer, colorer)
    }
}

/// A mesh that keeps the vertex and index contract and has a triangle has
/// vertices: its index count is a multiple of 3 and at least 3, and every
/// index names one of a positive number of vertices.
pub proof fn lemma_triangles_have_vertices(t: Tessellation)
    requires
        t.wf(),
        t.indices@.len() > 0,
    ensures
        t.vertices@.len() > 0,
        t.indices@.len() >= 3,
        t.indices@.len() % 3 == 0,
        forall|k: int| 0 <= k < t.indices@.len() ==> (#[trigger] t.indices@[k]) < t.vertices@.len(),
{
    assert(t.indices@[0] < t.vertices@.len());
}

} // verus!

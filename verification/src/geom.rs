//! Numbers, points, colors and the outlines of shapes, as plain data.

use vstd::prelude::*;
use vstd::std_specs::convert::FromSpecImpl;

verus! {

/// The bits of 0.0.
pub const ZERO_BITS: u32 = 0x0000_0000;

/// The bits of 1.0.
pub const ONE_BITS: u32 = 0x3F80_0000;

/// A single-precision number, held by its IEEE-754 bit pattern.
///
/// The core stores and hands on such numbers and never computes with them,
/// so two scalars are the same exactly when their bits are.
#[derive(Clone, Copy, Debug, PartialEq, Eq, Structural)]
pub struct Scalar {
    pub bits: u32,
}

impl Scalar {
    /// The scalar with the given bit pattern.
    pub fn from_bits(bits: u32) -> (s: Scalar)
        ensures
            s.bits == bits,
    {
        Scalar { bits }
    }

    /// The bit pattern of this scalar.
    pub fn to_bits(self) -> (bits: u32)
        ensures
            bits == self.bits,
    {
        self.bits
    }

    pub open spec fn spec_zero() -> Scalar {
        Scalar { bits: ZERO_BITS }
    }

    pub open spec fn spec_one() -> Scalar {
        Scalar { bits: ONE_BITS }
    }

    /// The number 0.0.
    #[verifier::when_used_as_spec(spec_zero)]
    pub fn zero() -> (s: Scalar)
        ensures
            s == Scalar::spec_zero(),
    {
        Scalar { bits: ZERO_BITS }
    }

    /// The number 1.0.
    #[verifier::when_used_as_spec(spec_one)]
    pub fn one() -> (s: Scalar)
        ensures
            s == Scalar::spec_one(),
    {
        Scalar { bits: ONE_BITS }
    }
}

/// A position, or a direction, in the plane.
#[derive(Clone, Copy, Debug, PartialEq, Eq, Structural)]
pub struct Point {
    pub x: Scalar,
    pub y: Scalar,
}

impl Point {
    pub fn new(x: Scalar, y: Scalar) -> (p: Point)
        ensures
            p == (Point { x, y }),
    {
        Point { x, y }
    }

    pub open spec fn spec_origin() -> Point {
        Point { x: Scalar::spec_zero(), y: Scalar::spec_zero() }
    }

    /// The point (0.0, 0.0).
    #[verifier::when_used_as_spec(spec_origin)]
    pub fn origin() -> (p: Point)
        ensures
            p == Point::spec_origin(),
    {
        Point { x: Scalar::zero(), y: Scalar::zero() }
    }
}

/// A color with alpha.
#[derive(Clone, Copy, Debug, PartialEq, Eq, Structural)]
pub struct Color {
    pub r: Scalar,
    pub g: Scalar,
    pub b: Scalar,
    pub a: Scalar,
}

impl Color {
    pub open spec fn spec_transparent() -> Color {
        Color {
            r: Scalar::spec_zero(),
            g: Scalar::spec_zero(),
            b: Scalar::spec_zero(),
            a: Scalar::spec_zero(),
        }
    }

    /// Fully transparent black: what a render target is cleared to, and the
    /// color of a vertex that nothing colors.
    #[verifier::when_used_as_spec(spec_transparent)]
    pub fn transparent() -> (c: Color)
        ensures
            c == Color::spec_transparent(),
    {
        Color { r: Scalar::zero(), g: Scalar::zero(), b: Scalar::zero(), a: Scalar::zero() }
    }
}

/// An ellipse. Without a height it is a circle whose radius is `width`.
#[derive(Clone, Copy, Debug, PartialEq, Eq, Structural)]
pub struct Ellipse {
    pub center: Point,
    pub width: Scalar,
    pub height: Option<Scalar>,
    /// The rotation of the horizontal axis, in radians.
    pub rotation: Scalar,
    /// The flattening tolerance, where it differs from the default.
    pub tolerance: Option<Scalar>,
}

/// An ordered vertex outline. The last vertex connects back to the first.
#[derive(Debug, PartialEq)]
pub struct Polygon {
    pub vertices: Vec<Point>,
}

impl Clone for Polygon {
    fn clone(&self) -> (copy: Polygon)
        ensures
            copy@ == self@,
    {
        let vertices = self.vertices.clone();
        Polygon { vertices }
    }
}

impl View for Polygon {
    type V = Seq<Point>;

    open spec fn view(&self) -> Seq<Point> {
        self.vertices@
    }
}

/// A shape that is an ordered vertex outline.
pub trait Poly {
    /// The vertices of the outline, in their order.
    fn vertices(&self) -> Vec<Point>;
}

impl Poly for Polygon {
    fn vertices(&self) -> (vertices: Vec<Point>)
        ensures
            vertices@ == self@,
    {
        self.vertices.clone()
    }
}

/// The corners of the rectangle from the origin to (`width`, `height`),
/// starting at the origin, the corner along the horizontal axis next.
pub open spec fn rect_corners(width: Scalar, height: Scalar) -> Seq<Point> {
    seq![
        Point { x: Scalar::spec_zero(), y: Scalar::spec_zero() },
        Point { x: width, y: Scalar::spec_zero() },
        Point { x: width, y: height },
        Point { x: Scalar::spec_zero(), y: height },
    ]
}

impl Polygon {
    /// The outline with the given vertices, in their order.
    pub fn new(vertices: Vec<Point>) -> (p: Polygon)
        ensures
            p@ == vertices@,
    {
        Polygon { vertices }
    }

    /// The rectangle that spans a frame of the given size.
    pub fn full_frame(width: Scalar, height: Scalar) -> (p: Polygon)
        ensures
            p@ == rect_corners(width, height),
    {
        let mut vertices: Vec<Point> = Vec::new();
        vertices.push(Point { x: Scalar::zero(), y: Scalar::zero() });
        vertices.push(Point { x: width, y: Scalar::zero() });
        vertices.push(Point { x: width, y: height });
        vertices.push(Point { x: Scalar::zero(), y: height });
        Polygon { vertices }
    }

    /// The rectangle that spans the frame in normalized coordinates, from
    /// (0.0, 0.0) to (1.0, 1.0).
    pub fn frame() -> (p: Polygon)
        ensures
            p@ == rect_corners(Scalar::spec_one(), Scalar::spec_one()),
    {
        Polygon::full_frame(Scalar::one(), Scalar::one())
    }
}

/// What the tessellation engine accepts: an ellipse description or a vertex
/// outline.
#[derive(Debug, PartialEq)]
pub enum Shape {
    Ellipse(Ellipse),
    Polygon(Polygon),
}

impl Clone for Shape {
    fn clone(&self) -> (copy: Shape)
        ensures
            copy.outline() == self.outline(),
    {
        match self {
            Shape::Ellipse(ellipse) => Shape::Ellipse(*ellipse),
            Shape::Polygon(polygon) => Shape::Polygon(polygon.clone()),
        }
    }
}

/// A shape as the tessellation engine reads it.
pub enum Outline {
    Ellipse(Ellipse),
    Polygon(Seq<Point>),
}

impl From<Ellipse> for Shape {
    fn from(ellipse: Ellipse) -> (shape: Shape) {
        Shape::Ellipse(ellipse)
    }
}

impl FromSpecImpl<Ellipse> for Shape {
    open spec fn obeys_from_spec() -> bool {
        true
    }

    open spec fn from_spec(ellipse: Ellipse) -> Shape {
        Shape::Ellipse(ellipse)
    }
}

impl From<Polygon> for Shape {
    fn from(polygon: Polygon) -> (shape: Shape) {
        Shape::Polygon(polygon)
    }
}

impl FromSpecImpl<Polygon> for Shape {
    open spec fn obeys_from_spec() -> bool {
        true
    }

    open spec fn from_spec(polygon: Polygon) -> Shape {
        Shape::Polygon(polygon)
    }
}

impl Shape {
    /// What the shape describes: the ellipse, or the vertices in order.
    pub open spec fn outline(self) -> Outline {
        match self {
            Shape::Ellipse(ellipse) => Outline::Ellipse(ellipse),
            Shape::Polygon(polygon) => Outline::Polygon(polygon@),
        }
    }

    /// The full-frame rectangle, in normalized coordinates.
    pub fn frame() -> (s: Shape)
        ensures
            s.outline() == Outline::Polygon(rect_corners(Scalar::spec_one(), Scalar::spec_one())),
    {
        Shape::Polygon(Polygon::frame())
    }
}

} // verus!

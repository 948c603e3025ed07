//! Drawing by pen: a path is laid down point by point and then filled.

use vstd::prelude::*;
use crate::geom::{Color, Point, Scalar};
use crate::gpu::shaders::Shader;

verus! {

/// How a path becomes pixels.
#[derive(Clone, Copy, Debug, PartialEq, Eq, Structural)]
pub enum RasterMethod {
    Fill,
}

/// A path to raster, with the color and the shader that were current when
/// it was filled.
#[derive(Debug, PartialEq)]
pub struct Element {
    pub path: Vec<Point>,
    pub color: Color,
    pub shader: Shader,
    pub raster_method: RasterMethod,
}

/// A surface to sketch on.
pub trait Sketch {
    /// Starts a new path at `dest`.
    fn move_to(&mut self, dest: Point);

    /// Continues the path with a line to `dest`.
    fn line_to(&mut self, dest: Point);

    /// Sets the color of the paths filled from now on.
    fn set_color(&mut self, color: Color);

    /// Sets the shader of the paths filled from now on.
    fn set_shader(&mut self, shader: Shader);

    /// Fills the current path.
    fn fill(&mut self);
}

/// A sketch that keeps what was filled, in order, until it is taken.
#[derive(Debug, PartialEq)]
pub struct Rainier {
    pub target: Vec<Element>,
    pub current_path: Vec<Point>,
    pub current_shader: Shader,
    pub current_color: Color,
}

/// Opaque white: the color of a sketch before any other is set.
pub open spec fn white() -> Color {
    Color {
        r: Scalar::spec_one(),
        g: Scalar::spec_one(),
        b: Scalar::spec_one(),
        a: Scalar::spec_one(),
    }
}

impl Rainier {
    /// An empty sketch: no path, the default shader, opaque white.
    pub fn new() -> (sketch: Rainier)
        ensures
            sketch.target@.len() == 0,
            sketch.current_path@.len() == 0,
            sketch.current_shader == Shader::Default,
            sketch.current_color == white(),
    {
        Rainier {
            target: Vec::new(),
            current_path: Vec::new(),
            current_shader: Shader::Default,
            current_color: Color {
                r: Scalar::one(),
                g: Scalar::one(),
                b: Scalar::one(),
                a: Scalar::one(),
            },
        }
    }

    /// Whether `element` is the current path of `self`, filled with the
    /// current color and shader.
    pub open spec fn fills(self, element: Element) -> bool {
        &&& element.path@ == self.current_path@
        &&& element.color == self.current_color
        &&& element.shader == self.current_shader
        &&& element.raster_method == RasterMethod::Fill
    }

    /// Hands over what was filled so far, oldest first, and forgets it.
    pub fn take(&mut self) -> (elements: Vec<Element>)
        ensures
            elements@ == old(self).target@,
            final(self).target@.len() == 0,
            final(self).current_path == old(self).current_path,
            final(self).current_shader == old(self).current_shader,
            final(self).current_color == old(self).current_color,
    {
        let mut elements: Vec<Element> = Vec::new();
        core::mem::swap(&mut self.target, &mut elements);
        elements
    }
}

impl Sketch for Rainier {
    fn move_to(&mut self, dest: Point)
        ensures
            final(self).current_path@ == seq![dest],
            final(self).target == old(self).target,
            final(self).current_shader == old(self).current_shader,
            final(self).current_color == old(self).current_color,
    {
        let mut path: Vec<Point> = Vec::new();
        path.push(dest);
        self.current_path = path;
    }

    fn line_to(&mut self, dest: Point)
        ensures
            final(self).current_path@ == old(self).current_path@.push(dest),
            final(self).target == old(self).target,
            final(self).current_shader == old(self).current_shader,
            final(self).current_color == old(self).current_color,
    {
        self.current_path.push(dest);
    }

    fn set_color(&mut self, color: Color)
        ensures
            *final(self) == (Rainier { current_color: color, ..*old(self) }),
    {
        self.current_color = color;
    }

    fn set_shader(&mut self, shader: Shader)
        ensures
            *final(self) == (Rainier { current_shader: shader, ..*old(self) }),
    {
        self.current_shader = shader;
    }

    fn fill(&mut self)
        ensures
            final(self).target@.len() == old(self).target@.len() + 1,
            final(self).target@.subrange(0, old(self).target@.len() as int) == old(self).target@,
            old(self).fills(final(self).target@.last()),
            final(self).current_path@.len() == 0,
            final(self).current_shader == old(self).current_shader,
            final(self).current_color == old(self).current_color,
    {
        let mut path: Vec<Point> = Vec::new();
        core::mem::swap(&mut self.current_path, &mut path);
        let element = Element {
            path,
            color: self.current_color,
            shader: self.current_shader.clone(),
            raster_method: RasterMethod::Fill,
        };
        self.target.push(element);
    }
}

} // verus!

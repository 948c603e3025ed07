//! Values that change with the frame.

use vstd::prelude::*;
use crate::geom::Scalar;

verus! {

/// A scalar as a function of the frame index, held as data, so that asking
/// twice for one frame gives one answer.
#[derive(Debug, PartialEq)]
pub enum Tween {
    /// The same value on every frame.
    Constant(Scalar),
    /// One value for each frame from frame 0 on. After the last sample the
    /// last value holds; with no sample at all the value is 1.0.
    Sampled(Vec<Scalar>),
}

impl Clone for Tween {
    fn clone(&self) -> (copy: Tween)
        ensures
            forall|frame: usize| copy.value_at(frame) == self.value_at(frame),
    {
        match self {
            Tween::Constant(value) => Tween::Constant(*value),
            Tween::Sampled(samples) => {
                let copied = samples.clone();
                Tween::Sampled(copied)
            },
        }
    }
}

impl Tween {
    /// The value on frame `frame`.
    pub open spec fn value_at(self, frame: usize) -> Scalar {
        match self {
            Tween::Constant(value) => value,
            Tween::Sampled(samples) => if frame < samples@.len() {
                samples@[frame as int]
            } else if samples@.len() > 0 {
                samples@[samples@.len() - 1]
            } else {
                Scalar::spec_one()
            },
        }
    }

    /// Evaluates the tween on a frame.
    pub fn tween(&self, frame: usize) -> (value: Scalar)
        ensures
            value == self.value_at(frame),
    {
        match self {
            Tween::Constant(value) => *value,
            Tween::Sampled(samples) => {
                let n: usize = samples.len();
                if frame < n {
                    samples[frame]
                } else if n > 0 {
                    samples[n - 1]
                } else {
                    Scalar::one()
                }
            },
        }
    }

    /// The tween that leaves a mesh at its own size on every frame.
    pub fn identity() -> (t: Tween)
        ensures
            t == Tween::Constant(Scalar::spec_one()),
    {
        Tween::Constant(Scalar::one())
    }
}

} // verus!

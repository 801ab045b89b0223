//! Gradient colour source.
use vstd::prelude::*;
use crate::error::PigletError;
use crate::parser::color::Color;
use crate::parser::gradient::{
    all_read, gradient_color, gradient_parts, sample_point, stop_values, unread, ColorStop,
    Gradient,
};

verus! {

/// Colours drawn from a gradient.
#[derive(Clone, Debug)]
pub struct GradientEngine {
    gradient: Gradient,
}

impl View for GradientEngine {
    type V = Seq<ColorStop>;

    closed spec fn view(&self) -> Seq<ColorStop> {
        self.gradient.stops@
    }
}

impl GradientEngine {
    /// The engine over this gradient.
    pub fn new(gradient: Gradient) -> (r: Self)
        ensures
            r@ == gradient.stops@,
    {
        GradientEngine { gradient }
    }

    /// The engine over the gradient `gradient_str` describes.
    pub fn from_string(gradient_str: &str) -> (r: Result<Self, PigletError>)
        ensures
            gradient_parts(gradient_str@) is None ==> (r matches Err(PigletError::InvalidGradient(e))
                && e@ == gradient_str@),
            gradient_parts(gradient_str@) is Some && all_read(gradient_parts(gradient_str@)->Some_0.0)
                ==> (r matches Ok(g) && g@ == stop_values(gradient_parts(gradient_str@)->Some_0.0)),
            gradient_parts(gradient_str@) is Some && !all_read(gradient_parts(gradient_str@)->Some_0.0)
                ==> (r matches Err(PigletError::InvalidColor(e)) && unread(
                gradient_parts(gradient_str@)->Some_0.0,
                e@,
            )),
    {
        match Gradient::parse(gradient_str) {
            Ok(g) => Ok(GradientEngine { gradient: g }),
            Err(e) => Err(e),
        }
    }

    /// The colour at `t` (fixed point).
    pub fn color_at(&self, t: i64) -> (c: Color)
        ensures
            c == gradient_color(self@, t as int),
    {
        self.gradient.color_at(t)
    }

    /// `steps` evenly spaced colours, both ends included.
    pub fn colors(&self, steps: usize) -> (r: Vec<Color>)
        ensures
            r@.len() == steps,
            forall|i: int|
                0 <= i < steps ==> #[trigger] r@[i] == gradient_color(
                    self@,
                    sample_point(i, steps as int),
                ),
    {
        self.gradient.colors(steps)
    }
}

} // verus!

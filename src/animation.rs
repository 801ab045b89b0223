//! Animation: timelines, easing curves, effects, and the renderer that combines them.
use vstd::prelude::*;
use crate::color::{ColorEngine, ColorMode};
use crate::error::PigletError;
use crate::utils::ascii::{bounded, AsciiArt};
use crate::utils::text::lines_of;

pub mod easing;
pub mod effects;
pub mod renderer;
pub mod timeline;

verus! {

use easing::{easing_named, EasingKind};
use effects::{effect_named, EffectKind};
use renderer::Renderer;

/// The configuration of one animation: art, timing, effect, easing and colours.
pub struct AnimationEngine {
    ascii_art: AsciiArt,
    duration_ms: u64,
    fps: u32,
    effect: EffectKind,
    easing: EasingKind,
    color_engine: ColorEngine,
}

impl AnimationEngine {
    pub closed spec fn spec_art(&self) -> Seq<Seq<char>> {
        self.ascii_art@
    }

    pub closed spec fn spec_effect(&self) -> EffectKind {
        self.effect
    }

    pub closed spec fn spec_easing(&self) -> EasingKind {
        self.easing
    }

    pub closed spec fn spec_mode(&self) -> ColorMode {
        self.color_engine.spec_mode()
    }

    pub closed spec fn spec_timing(&self) -> (u64, u32) {
        (self.duration_ms, self.fps)
    }

    /// The art of `ascii_text`, fading in linearly with no colours.
    pub fn new(ascii_text: String, duration_ms: u64, fps: u32) -> (r: Self)
        ensures
            r.spec_art() == lines_of(ascii_text@),
            r.spec_timing() == (duration_ms, fps),
            r.spec_effect() == EffectKind::FadeIn,
            r.spec_easing() == EasingKind::Linear,
            r.spec_mode() is NoColor,
    {
        AnimationEngine {
            ascii_art: AsciiArt::new(ascii_text),
            duration_ms,
            fps,
            effect: EffectKind::FadeIn,
            easing: EasingKind::Linear,
            color_engine: ColorEngine::new(),
        }
    }

    /// The same animation with the effect named `effect_name`.
    pub fn with_effect(self, effect_name: &str) -> (r: Result<Self, PigletError>)
        ensures
            match effect_named(effect_name@) {
                Some(k) => r matches Ok(e) && e.spec_effect() == k && e.spec_art() == self.spec_art()
                    && e.spec_easing() == self.spec_easing() && e.spec_mode() == self.spec_mode()
                    && e.spec_timing() == self.spec_timing(),
                None => r matches Err(PigletError::UnknownEffect(s)) && s@ == effect_name@,
            },
    {
        let effect = effects::get_effect(effect_name)?;
        Ok(AnimationEngine { effect, ..self })
    }

    /// The same animation with the easing curve named `easing_name`.
    pub fn with_easing(self, easing_name: &str) -> (r: Result<Self, PigletError>)
        ensures
            match easing_named(easing_name@) {
                Some(k) => r matches Ok(e) && e.spec_easing() == k && e.spec_art() == self.spec_art()
                    && e.spec_effect() == self.spec_effect() && e.spec_mode() == self.spec_mode()
                    && e.spec_timing() == self.spec_timing(),
                None => r matches Err(PigletError::UnknownEasing(s)) && s@ == easing_name@,
            },
    {
        let easing = easing::get_easing_function(easing_name)?;
        Ok(AnimationEngine { easing, ..self })
    }

    /// The same animation with these colours.
    pub fn with_color_engine(self, color_engine: ColorEngine) -> (r: Self)
        ensures
            r.spec_mode() == color_engine.spec_mode(),
            r.spec_art() == self.spec_art(),
            r.spec_effect() == self.spec_effect(),
            r.spec_easing() == self.spec_easing(),
            r.spec_timing() == self.spec_timing(),
    {
        AnimationEngine { color_engine, ..self }
    }

    /// The renderer for this animation; `None` when the art is larger than effects
    /// take.
    pub fn into_renderer(self) -> (r: Option<Renderer>)
        ensures
            r is Some <==> bounded(self.spec_art()),
            r matches Some(x) ==> x.spec_art() == self.spec_art() && x.spec_effect()
                == self.spec_effect() && x.spec_easing() == self.spec_easing() && x.spec_mode()
                == self.spec_mode() && x.wf() && x.spec_timeline().spec_duration()
                == self.spec_timing().0 && x.spec_timeline().spec_fps() == self.spec_timing().1,
    {
        if !self.ascii_art.is_bounded() {
            return None;
        }
        Some(
            Renderer::new(
                self.ascii_art,
                self.duration_ms,
                self.fps,
                self.effect,
                self.easing,
                self.color_engine,
            ),
        )
    }
}

} // verus!

//! Render-feature toggles and their uniform-buffer encoding.
//!
//! The renderer exposes four optional effects. Each is flipped on a
//! distinct key-press edge and shipped to the GPU as one component of a
//! four-component vector whose components are the bit patterns of the
//! 32-bit floats `1.0` and `0.0`, so the on-GPU binary layout stays
//! identical to a float vector while the host side stays self-describing.

use vstd::prelude::*;

verus! {

/// One of the four optional render effects.
#[derive(Clone, Copy, PartialEq, Eq, Structural, Debug)]
pub enum Feature {
    SoftShadows,
    Reflections,
    Refraction,
    Subsurface,
}

/// Host-side state of the four feature toggles.
#[derive(Clone, Copy, PartialEq, Eq, Structural, Debug)]
pub struct RenderSettings {
    pub soft_shadows: bool,
    pub reflections: bool,
    pub refraction: bool,
    pub subsurface: bool,
}

/// Bit pattern of the 32-bit float `1.0`, the "enabled" uniform component.
pub const FLOAT_ONE_BITS: u32 = 0x3F80_0000;

/// Bit pattern of the 32-bit float `0.0`, the "disabled" uniform component.
pub const FLOAT_ZERO_BITS: u32 = 0;

impl RenderSettings {
    /// Whether feature `f` is currently enabled.
    pub open spec fn spec_get(self, f: Feature) -> bool {
        match f {
            Feature::SoftShadows => self.soft_shadows,
            Feature::Reflections => self.reflections,
            Feature::Refraction => self.refraction,
            Feature::Subsurface => self.subsurface,
        }
    }

    /// The settings with feature `f` flipped and the others unchanged.
    pub open spec fn spec_toggle(self, f: Feature) -> RenderSettings {
        match f {
            Feature::SoftShadows => RenderSettings { soft_shadows: !self.soft_shadows, ..self },
            Feature::Reflections => RenderSettings { reflections: !self.reflections, ..self },
            Feature::Refraction => RenderSettings { refraction: !self.refraction, ..self },
            Feature::Subsurface => RenderSettings { subsurface: !self.subsurface, ..self },
        }
    }

    /// The four uniform components, in shader order
    /// (soft shadows, reflections, refraction, subsurface scattering).
    pub open spec fn spec_uniform_words(self) -> Seq<u32> {
        seq![
            spec_flag_bits(self.soft_shadows),
            spec_flag_bits(self.reflections),
            spec_flag_bits(self.refraction),
            spec_flag_bits(self.subsurface),
        ]
    }

    /// Initial settings: every effect enabled.
    pub fn new() -> (s: RenderSettings)
        ensures
            s == (RenderSettings {
                soft_shadows: true,
                reflections: true,
                refraction: true,
                subsurface: true,
            }),
    {
        RenderSettings { soft_shadows: true, reflections: true, refraction: true, subsurface: true }
    }

    /// Flip feature `f`, leaving the other three toggles unchanged.
    pub fn toggle(&mut self, f: Feature)
        ensures
            *final(self) == old(self).spec_toggle(f),
    {
        match f {
            Feature::SoftShadows => self.soft_shadows = !self.soft_shadows,
            Feature::Reflections => self.reflections = !self.reflections,
            Feature::Refraction => self.refraction = !self.refraction,
            Feature::Subsurface => self.subsurface = !self.subsurface,
        }
    }

    /// React to one key event: a press edge on a key bound to a feature
    /// flips that feature; releases and unbound keys change nothing.
    pub fn handle_key(&mut self, bound: Option<Feature>, pressed: bool)
        ensures
            match bound {
                Some(f) => *final(self) == if pressed {
                    old(self).spec_toggle(f)
                } else {
                    *old(self)
                },
                None => *final(self) == *old(self),
            },
    {
        if pressed {
            if let Some(f) = bound {
                self.toggle(f);
            }
        }
    }

    /// Encode the toggles as the last four 32-bit words of the camera
    /// uniform: the float bit patterns the shaders read.
    pub fn uniform_words(&self) -> (words: Vec<u32>)
        ensures
            words@ == self.spec_uniform_words(),
    {
        let mut words: Vec<u32> = Vec::new();
        words.push(flag_bits(self.soft_shadows));
        words.push(flag_bits(self.reflections));
        words.push(flag_bits(self.refraction));
        words.push(flag_bits(self.subsurface));
        proof {
            assert(words@ =~= self.spec_uniform_words());
        }
        words
    }
}

/// Uniform component for one flag: the bits of `1.0` when set, of `0.0` when not.
pub open spec fn spec_flag_bits(on: bool) -> u32 {
    if on {
        FLOAT_ONE_BITS
    } else {
        FLOAT_ZERO_BITS
    }
}

/// Executable counterpart of [`spec_flag_bits`].
pub fn flag_bits(on: bool) -> (bits: u32)
    ensures
        bits == spec_flag_bits(on),
{
    if on {
        FLOAT_ONE_BITS
    } else {
        FLOAT_ZERO_BITS
    }
}

/// Flipping the same feature twice restores the settings exactly:
/// a pair of presses of one toggle key is a no-op.
pub proof fn lemma_toggle_twice(s: RenderSettings, f: Feature)
    ensures
        s.spec_toggle(f).spec_toggle(f) == s,
{
}

} // verus!

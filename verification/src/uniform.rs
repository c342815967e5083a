//! Layout of the per-frame camera uniform.
//!
//! The shaders read one uniform block: the inverse view matrix, the
//! inverse projection matrix, the light position, and the settings
//! vector — forty 32-bit words. The matrices arrive from the camera
//! collaborator as raw float bit patterns; the light position is fixed;
//! the settings tail comes from the feature toggles.

use vstd::prelude::*;
use crate::settings::{RenderSettings, FLOAT_ONE_BITS};

verus! {

/// Words of one 4x4 matrix.
pub const MAT4_WORDS: usize = 16;

/// Words of the whole camera uniform.
pub const UNIFORM_WORDS: usize = 40;

/// Bit pattern of the 32-bit float `10.0`: each spatial component of
/// the fixed light position.
pub const LIGHT_COMPONENT_BITS: u32 = 0x4120_0000;

/// Append all of `src` to `dst`.
fn append_words(dst: &mut Vec<u32>, src: &Vec<u32>)
    ensures
        final(dst)@ == old(dst)@ + src@,
{
    let n = src.len();
    let mut i: usize = 0;
    while i < n
        invariant
            n == src@.len(),
            i <= n,
            dst@ == old(dst)@ + src@.subrange(0, i as int),
        decreases n - i,
    {
        dst.push(src[i]);
        proof {
            assert(old(dst)@ + src@.subrange(0, (i + 1) as int) =~= (old(dst)@ + src@.subrange(
                0,
                i as int,
            )).push(src@[i as int]));
        }
        i = i + 1;
    }
    proof {
        assert(dst@ =~= old(dst)@ + src@);
    }
}

/// Pack the camera uniform: inverse view matrix, inverse projection
/// matrix, the fixed light position at (10, 10, 10, 1), and the four
/// settings components.
pub fn pack_camera_uniform(
    view_inverse: &Vec<u32>,
    proj_inverse: &Vec<u32>,
    settings: &RenderSettings,
) -> (words: Vec<u32>)
    requires
        view_inverse@.len() == MAT4_WORDS,
        proj_inverse@.len() == MAT4_WORDS,
    ensures
        words@.len() == UNIFORM_WORDS,
        words@.subrange(0, 16) == view_inverse@,
        words@.subrange(16, 32) == proj_inverse@,
        words@[32] == LIGHT_COMPONENT_BITS,
        words@[33] == LIGHT_COMPONENT_BITS,
        words@[34] == LIGHT_COMPONENT_BITS,
        words@[35] == FLOAT_ONE_BITS,
        words@.subrange(36, 40) == settings.spec_uniform_words(),
{
    let mut words: Vec<u32> = Vec::new();
    append_words(&mut words, view_inverse);
    append_words(&mut words, proj_inverse);
    words.push(LIGHT_COMPONENT_BITS);
    words.push(LIGHT_COMPONENT_BITS);
    words.push(LIGHT_COMPONENT_BITS);
    words.push(FLOAT_ONE_BITS);
    let tail = settings.uniform_words();
    append_words(&mut words, &tail);
    proof {
        assert(words@.subrange(0, 16) =~= view_inverse@);
        assert(words@.subrange(16, 32) =~= proj_inverse@);
        assert(words@.subrange(36, 40) =~= settings.spec_uniform_words());
    }
    words
}

} // verus!

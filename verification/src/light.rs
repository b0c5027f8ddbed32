//! Point lights, in the shape the per-frame uniform data needs.
//!
//! Positions and colors are raw 32-bit float patterns; the core only
//! widens them to the four-component vectors the uniform layout expects
//! and caps the light list at the fixed maximum the shaders declare.

use crate::material::{FLOAT_BITS_ONE, FLOAT_BITS_ZERO};
use vstd::prelude::*;

verus! {

/// The most point lights a frame's uniform data can carry.
pub const MAX_POINT_LIGHTS: usize = 4;

/// A point light: position and color, as raw 32-bit float patterns.
#[derive(Debug, Clone, Copy, PartialEq, Eq)]
pub struct PointLight {
    pub position: [u32; 3],
    pub color: [u32; 3],
}

impl PointLight {
    /// The position widened to four components with a zero w.
    pub fn position(&self) -> (r: [u32; 4])
        ensures
            r@ == seq![
                self.position@[0],
                self.position@[1],
                self.position@[2],
                FLOAT_BITS_ZERO,
            ],
    {
        let r = [self.position[0], self.position[1], self.position[2], FLOAT_BITS_ZERO];
        proof {
            assert(r@ =~= seq![
                self.position@[0],
                self.position@[1],
                self.position@[2],
                FLOAT_BITS_ZERO,
            ]);
        }
        r
    }

    /// The color widened to four components with a unit alpha.
    pub fn color(&self) -> (r: [u32; 4])
        ensures
            r@ == seq![self.color@[0], self.color@[1], self.color@[2], FLOAT_BITS_ONE],
    {
        let r = [self.color[0], self.color[1], self.color[2], FLOAT_BITS_ONE];
        proof {
            assert(r@ =~= seq![self.color@[0], self.color@[1], self.color@[2], FLOAT_BITS_ONE]);
        }
        r
    }

    /// The light's power term; constant for every light.
    pub fn power(&self) -> (r: [u32; 4])
        ensures
            r@ == seq![2400u32, 0u32, 0u32, 0u32],
    {
        let r = [2400u32, 0u32, 0u32, 0u32];
        proof {
            assert(r@ =~= seq![2400u32, 0u32, 0u32, 0u32]);
        }
        r
    }
}

/// The uniform words one light contributes: its widened position, its
/// widened color, and its power term.
pub open spec fn light_quads(l: PointLight) -> Seq<Seq<u32>> {
    seq![
        seq![l.position@[0], l.position@[1], l.position@[2], FLOAT_BITS_ZERO],
        seq![l.color@[0], l.color@[1], l.color@[2], FLOAT_BITS_ONE],
        seq![2400u32, 0u32, 0u32, 0u32],
    ]
}

/// The per-frame light array: three four-word entries — position, color,
/// power — for each of the first `MAX_POINT_LIGHTS` lights, in order.
pub fn light_uniform_data(lights: &Vec<PointLight>) -> (r: Vec<[u32; 4]>)
    ensures
        ({
            let n = if lights@.len() <= MAX_POINT_LIGHTS {
                lights@.len() as int
            } else {
                MAX_POINT_LIGHTS as int
            };
            &&& r@.len() == 3 * n
            &&& forall|i: int|
                0 <= i < n ==> {
                    &&& (#[trigger] r@[3 * i])@ == light_quads(lights@[i])[0]
                    &&& r@[3 * i + 1]@ == light_quads(lights@[i])[1]
                    &&& r@[3 * i + 2]@ == light_quads(lights@[i])[2]
                }
        }),
{
    let mut r: Vec<[u32; 4]> = Vec::new();
    let n = if lights.len() <= MAX_POINT_LIGHTS {
        lights.len()
    } else {
        MAX_POINT_LIGHTS
    };
    let mut i: usize = 0;
    while i < n
        invariant
            n <= lights@.len(),
            i <= n,
            r@.len() == 3 * i,
            forall|j: int|
                0 <= j < i ==> {
                    &&& (#[trigger] r@[3 * j])@ == light_quads(lights@[j])[0]
                    &&& r@[3 * j + 1]@ == light_quads(lights@[j])[1]
                    &&& r@[3 * j + 2]@ == light_quads(lights@[j])[2]
                },
        decreases n - i,
    {
        let light = &lights[i];
        r.push(light.position());
        r.push(light.color());
        r.push(light.power());
        i = i + 1;
    }
    r
}

/// The lights a frame's uniform data carries: the first
/// `MAX_POINT_LIGHTS` of the scene's list, in order.
pub fn clamp_lights(lights: &Vec<PointLight>) -> (r: Vec<PointLight>)
    ensures
        r@ == (if lights@.len() <= MAX_POINT_LIGHTS {
            lights@
        } else {
            lights@.take(MAX_POINT_LIGHTS as int)
        }),
{
    let mut r: Vec<PointLight> = Vec::new();
    let n = if lights.len() <= MAX_POINT_LIGHTS {
        lights.len()
    } else {
        MAX_POINT_LIGHTS
    };
    let mut i: usize = 0;
    while i < n
        invariant
            n <= lights@.len(),
            i <= n,
            r@ == lights@.take(i as int),
        decreases n - i,
    {
        r.push(lights[i]);
        proof {
            assert(lights@.take(i + 1) =~= lights@.take(i as int).push(lights@[i as int]));
        }
        i = i + 1;
    }
    proof {
        if lights@.len() <= MAX_POINT_LIGHTS {
            assert(lights@.take(n as int) =~= lights@);
        }
    }
    r
}

} // verus!

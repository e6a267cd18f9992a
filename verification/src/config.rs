//! The numeric configuration of the tracer.
//!
//! All global constants of the light transport (bounce budget, secondary-ray
//! offset, the single point light, the sky color, the indirect-bounce energy
//! cutoff) live in one value that is passed to the components, so the core
//! can be exercised with alternate parameters.

use crate::fx::Fx;
use crate::vec3::{V3i, Vec3};
use vstd::prelude::*;

verus! {

/// Mathematical view of a configuration.
pub struct ConfigI {
    pub max_bounces: int,
    pub ray_epsilon: int,
    pub light_pos: V3i,
    pub light_emission: V3i,
    pub background: V3i,
    pub cutoff: int,
}

/// Tracer configuration: bounce budget, the offset that secondary rays are
/// pushed along their direction to avoid self-intersection, the point
/// light's position and emission, the sky color returned by missing rays,
/// and the throughput cutoff for indirect bounces.
#[derive(Clone, Copy, Debug, PartialEq, Eq, Structural)]
pub struct Config {
    pub max_bounces: u8,
    pub ray_epsilon: Fx,
    pub light_pos: Vec3,
    pub light_emission: Vec3,
    pub background: Vec3,
    pub cutoff: Fx,
}

impl View for Config {
    type V = ConfigI;

    open spec fn view(&self) -> ConfigI {
        ConfigI {
            max_bounces: self.max_bounces as int,
            ray_epsilon: self.ray_epsilon@,
            light_pos: self.light_pos@,
            light_emission: self.light_emission@,
            background: self.background@,
            cutoff: self.cutoff@,
        }
    }
}

/// The default configuration as a view value: three bounces, an offset of
/// about `1e-4`, a warm point light at `(10, 20, -10)` with emission
/// `(1, 0.95, 0.9) * 1400`, a sky of `(0.5, 0.7, 1)`, and a cutoff of about
/// `0.01`.
pub open spec fn preset_config_s() -> ConfigI {
    ConfigI {
        max_bounces: 3,
        ray_epsilon: 7,
        light_pos: V3i { x: 655360, y: 1310720, z: -655360 },
        light_emission: V3i { x: 91750400, y: 87162880, z: 82575360 },
        background: V3i { x: 32768, y: 45875, z: 65536 },
        cutoff: 655,
    }
}

impl Config {
    /// The default configuration.
    pub fn preset() -> (r: Config)
        ensures
            r@ == preset_config_s(),
    {
        Config {
            max_bounces: 3,
            ray_epsilon: Fx { raw: 7 },
            light_pos: Vec3 {
                x: Fx { raw: 655360 },
                y: Fx { raw: 1310720 },
                z: Fx { raw: -655360 },
            },
            light_emission: Vec3 {
                x: Fx { raw: 91750400 },
                y: Fx { raw: 87162880 },
                z: Fx { raw: 82575360 },
            },
            background: Vec3 { x: Fx { raw: 32768 }, y: Fx { raw: 45875 }, z: Fx { raw: 65536 } },
            cutoff: Fx { raw: 655 },
        }
    }
}

} // verus!

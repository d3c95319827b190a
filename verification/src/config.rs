//! The simulation's fixed configuration: how many particles the storage
//! buffer holds.  The value is chosen once, when the session is set up, and
//! is uploaded to the device as a four-byte little-endian word.

use vstd::prelude::*;

verus! {

/// Configuration shared with the compute programs: the number of particles in
/// the storage buffer.  Constructed once at setup from the same value used to
/// size the particle array, and never mutated afterwards.
#[derive(Clone, Copy, PartialEq, Eq, Structural, Debug)]
pub struct ParticleConfig {
    pub particle_count: u32,
}

impl ParticleConfig {
    /// Builds the configuration for a session with `particle_count` particles.
    pub fn new(particle_count: u32) -> (r: ParticleConfig)
        ensures
            r.particle_count == particle_count,
    {
        ParticleConfig { particle_count }
    }

    /// The particle count the session was set up with.
    pub fn particle_count(&self) -> (r: u32)
        ensures
            r == self.particle_count,
    {
        self.particle_count
    }

    /// The little-endian bytes of `particle_count`, in buffer order.
    pub open spec fn spec_encoded(&self) -> Seq<u8> {
        seq![
            (self.particle_count as int % 256) as u8,
            (self.particle_count as int / 256 % 256) as u8,
            (self.particle_count as int / 65536 % 256) as u8,
            (self.particle_count as int / 16777216 % 256) as u8,
        ]
    }

    /// Encodes the configuration exactly as the device-side uniform buffer
    /// stores it: `particle_count` as four little-endian bytes.
    pub fn encode(&self) -> (r: Vec<u8>)
        ensures
            r@ == self.spec_encoded(),
    {
        let n = self.particle_count;
        let mut r: Vec<u8> = Vec::new();
        r.push((n % 256) as u8);
        r.push((n / 256 % 256) as u8);
        r.push((n / 65536 % 256) as u8);
        r.push((n / 16777216 % 256) as u8);
        proof {
            assert(r@ =~= self.spec_encoded());
        }
        r
    }
}

} // verus!

//! The per-frame extraction barrier: the one-way copy that makes the host's
//! resources visible to the device-side world.  The copy is a whole-value
//! overwrite — never an incremental merge — so running it on every frame is
//! safe even when nothing changed: a second extraction of the same host
//! values leaves the device-visible state exactly as it was.

use vstd::prelude::*;

use crate::config::ParticleConfig;

verus! {

/// The host-owned resources the device-side world needs each frame: the
/// simulation's configuration, the buffer holding its encoded value, and the
/// asset identity of the particle storage buffer.
#[derive(Clone, Copy, PartialEq, Eq, Structural, Debug)]
pub struct HostResources {
    pub config: ParticleConfig,
    pub config_buffer: u64,
    pub storage_buffer_id: u64,
}

/// The device-visible copy of the host resources, overwritten each frame.
#[derive(Clone, Copy, PartialEq, Eq, Structural, Debug)]
pub struct ExtractedResources {
    pub config: ParticleConfig,
    pub config_buffer: u64,
    pub storage_buffer_id: u64,
}

/// What extraction writes: a whole-value copy of the host resources.
pub open spec fn extracted_of(host: HostResources) -> ExtractedResources {
    ExtractedResources {
        config: host.config,
        config_buffer: host.config_buffer,
        storage_buffer_id: host.storage_buffer_id,
    }
}

/// One frame's extraction: overwrites `target` with the host values, whole
/// and unconditionally.  The new device state is a function of the host
/// values alone — nothing of the previous frame leaks through, so running
/// the copy every frame is safe even when nothing changed.
pub fn extract(host: &HostResources, target: &mut ExtractedResources)
    ensures
        *final(target) == extracted_of(*host),
{
    target.config = host.config;
    target.config_buffer = host.config_buffer;
    target.storage_buffer_id = host.storage_buffer_id;
}

} // verus!

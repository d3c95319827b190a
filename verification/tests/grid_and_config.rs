use particle_dispatch::config::ParticleConfig;
use particle_dispatch::extract::{extract, ExtractedResources, HostResources};
use particle_dispatch::grid::{grid_1d, grid_2d, workgroup_count_1d, GridSize};
use particle_dispatch::WORKGROUP_SIZE;

#[test]
fn one_dim_policy_covers_ten_thousand_particles() {
    // ceil(10000 / 32) = 313
    assert_eq!(workgroup_count_1d(10000, 32), 313);
    let grid = grid_1d(10000, 32);
    assert_eq!(grid, GridSize { x: 313, y: 1, z: 1 });
}

#[test]
fn one_dim_policy_exact_and_edge_counts() {
    assert_eq!(workgroup_count_1d(0, 32), 0);
    assert_eq!(workgroup_count_1d(1, 32), 1);
    assert_eq!(workgroup_count_1d(32, 32), 1);
    assert_eq!(workgroup_count_1d(33, 32), 2);
    assert_eq!(workgroup_count_1d(10000, 1), 10000);
    // the default deployment: a 100 by 100 particle grid
    assert_eq!(workgroup_count_1d(100 * 100, WORKGROUP_SIZE), 313);
}

#[test]
fn two_dim_policy_covers_the_display() {
    let grid = grid_2d(320, 180, 8);
    assert_eq!(grid, GridSize { x: 40, y: 22, z: 1 });
}

#[test]
fn two_dim_policy_edge_sizes() {
    assert_eq!(grid_2d(0, 0, 8), GridSize { x: 0, y: 0, z: 1 });
    assert_eq!(grid_2d(7, 15, 8), GridSize { x: 0, y: 1, z: 1 });
    assert_eq!(grid_2d(8, 8, 8), GridSize { x: 1, y: 1, z: 1 });
}

#[test]
fn particle_count_is_what_the_config_was_built_with() {
    let config = ParticleConfig::new(1000);
    assert_eq!(config.particle_count(), 1000);
    // inspecting it again later in the session yields the same value
    assert_eq!(config.particle_count(), 1000);
    assert_eq!(config.particle_count, 1000);
}

#[test]
fn config_encodes_as_four_little_endian_bytes() {
    assert_eq!(ParticleConfig::new(1000).encode(), vec![232, 3, 0, 0]);
    assert_eq!(ParticleConfig::new(0x01020304).encode(), vec![4, 3, 2, 1]);
    assert_eq!(ParticleConfig::new(0).encode(), vec![0, 0, 0, 0]);
    assert_eq!(ParticleConfig::new(u32::MAX).encode(), vec![255, 255, 255, 255]);
}

#[test]
fn extraction_overwrites_the_device_copy_whole() {
    let host = HostResources {
        config: ParticleConfig::new(500),
        config_buffer: 3,
        storage_buffer_id: 9,
    };
    let mut device = ExtractedResources {
        config: ParticleConfig::new(0),
        config_buffer: 77,
        storage_buffer_id: 88,
    };
    extract(&host, &mut device);
    assert_eq!(device.config.particle_count(), 500);
    assert_eq!(device.config_buffer, 3);
    assert_eq!(device.storage_buffer_id, 9);
    // running it again with unchanged host values changes nothing
    let before = device;
    extract(&host, &mut device);
    assert_eq!(device, before);
}

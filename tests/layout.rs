use rtx_renderer::align::{aligned_size, aligned_size_u64, div_up};
use rtx_renderer::device_mesh::{Buffer, DeviceMesh, BUFFER_USAGE_SHADER_DEVICE_ADDRESS};
use rtx_renderer::sbt::{assemble_sbt, RayTracingProperties, SbtError, SbtLayout};

fn props(handle_size: u32, alignment: u32) -> RayTracingProperties {
    RayTracingProperties { shader_group_handle_size: handle_size, shader_group_base_alignment: alignment }
}

fn buffer(handle: u64, size: u64, address: u64) -> Buffer {
    Buffer { buffer: handle, size, usage: BUFFER_USAGE_SHADER_DEVICE_ADDRESS, address }
}

fn mesh_with(index_address: Option<u64>, normal_address: Option<u64>) -> DeviceMesh {
    DeviceMesh {
        num_vertices: 4,
        num_triangles: 2,
        position: Some(buffer(1, 48, 0x1000)),
        indices: index_address.map(|a| buffer(2, 24, a)),
        normals: normal_address.map(|a| buffer(3, 48, a)),
    }
}

fn handles(count: usize, size: usize, seed: u8) -> Vec<u8> {
    (0..count * size).map(|k| seed.wrapping_add(k as u8).wrapping_mul(7).wrapping_add(1)).collect()
}

#[test]
fn aligned_size_rounds_up_to_the_alignment() {
    assert_eq!(aligned_size(10, 8), 16);
    assert_eq!(aligned_size(16, 8), 16);
    assert_eq!(aligned_size(0, 64), 0);
    assert_eq!(aligned_size(33, 64), 64);
    assert_eq!(aligned_size(48, 64), 64);
    assert_eq!(aligned_size(65, 64), 128);
    assert_eq!(aligned_size(7, 3), 9);
    assert_eq!(aligned_size_u64(0x1_0000_0001, 0x100), 0x1_0000_0100);
}

#[test]
fn div_up_counts_covering_blocks() {
    assert_eq!(div_up(10, 3), 4);
    assert_eq!(div_up(9, 3), 3);
    assert_eq!(div_up(0, 5), 0);
    assert_eq!(div_up(800, 16), 50);
    assert_eq!(div_up(601, 16), 38);
    assert_eq!(div_up(u32::MAX, 16), 0x1000_0000);
}

#[test]
fn layout_sizes_follow_the_closed_form() {
    for n in [0u32, 1, 2, 5, 64, 1000] {
        let layout = SbtLayout::new(&props(32, 64), n).unwrap();
        assert_eq!(layout.group_stride(), 64);
        assert_eq!(layout.hit_stride(), 64);
        assert_eq!(layout.table_size(), 2 * 64 + n * 64);
    }
    let layout = SbtLayout::new(&props(32, 16), 3).unwrap();
    assert_eq!(layout.group_stride(), 32);
    assert_eq!(layout.hit_stride(), 48);
    assert_eq!(layout.table_size(), 32 + 32 + 3 * 48);
    assert_eq!(layout.hit_record_offset(0), 64);
    assert_eq!(layout.hit_record_offset(2), 64 + 96);
}

#[test]
fn layout_rejects_zero_alignment_and_oversized_tables() {
    assert_eq!(SbtLayout::new(&props(32, 0), 1), Err(SbtError::InvalidAlignment));
    assert_eq!(SbtLayout::new(&props(32, 64), u32::MAX), Err(SbtError::TableTooLarge));
    assert_eq!(SbtLayout::new(&props(u32::MAX, 64), 0), Err(SbtError::TableTooLarge));
    assert!(SbtLayout::new(&props(32, 64), 0x3ff_fffd).is_ok());
    assert_eq!(SbtLayout::new(&props(32, 64), 0x3ff_ffff), Err(SbtError::TableTooLarge));
}

#[test]
fn empty_scene_table_holds_only_group_records() {
    let layout = SbtLayout::new(&props(32, 64), 0).unwrap();
    let raygen = handles(1, 32, 1);
    let miss = handles(1, 32, 2);
    let table = assemble_sbt(&layout, &raygen, &miss, &Vec::new(), &Vec::new()).unwrap();
    assert_eq!(table.len(), 128);
    assert_eq!(&table[0..32], &raygen[..]);
    assert!(table[32..64].iter().all(|&b| b == 0));
    assert_eq!(&table[64..96], &miss[..]);
    assert!(table[96..128].iter().all(|&b| b == 0));
}

#[test]
fn table_reads_back_what_was_written_for_64_instances() {
    let n = 64usize;
    let layout = SbtLayout::new(&props(32, 64), n as u32).unwrap();
    let raygen = handles(1, 32, 3);
    let miss = handles(1, 32, 4);
    let hit = handles(n, 32, 5);
    let meshes: Vec<DeviceMesh> = (0..n as u64)
        .map(|i| mesh_with(Some(0x1_0000_0000 + i * 0x100), Some(0x2_0000_0000 + i * 0x100 + 8)))
        .collect();
    let table = assemble_sbt(&layout, &raygen, &miss, &hit, &meshes).unwrap();
    assert_eq!(table.len() as u32, layout.table_size());
    assert_eq!(table.len(), 2 * 64 + n * 64);
    assert_eq!(&table[0..32], &raygen[..]);
    assert_eq!(&table[64..96], &miss[..]);
    for i in 0..n {
        let off = layout.hit_record_offset(i as u32) as usize;
        assert_eq!(off, 128 + i * 64);
        assert_eq!(&table[off..off + 32], &hit[i * 32..(i + 1) * 32]);
        let index = u64::from_le_bytes(table[off + 32..off + 40].try_into().unwrap());
        let normal = u64::from_le_bytes(table[off + 40..off + 48].try_into().unwrap());
        assert_eq!(index, 0x1_0000_0000 + i as u64 * 0x100);
        assert_eq!(normal, 0x2_0000_0000 + i as u64 * 0x100 + 8);
        assert!(table[off + 48..off + 64].iter().all(|&b| b == 0));
    }
}

#[test]
fn hit_record_addresses_are_little_endian() {
    let layout = SbtLayout::new(&props(4, 8), 1).unwrap();
    let meshes = vec![mesh_with(Some(0x0102_0304_0506_0708), Some(0x1112_1314_1516_1718))];
    let table = assemble_sbt(&layout, &vec![0xaa; 4], &vec![0xbb; 4], &vec![0xcc; 4], &meshes).unwrap();
    assert_eq!(
        table,
        vec![
            0xaa, 0xaa, 0xaa, 0xaa, 0, 0, 0, 0, //
            0xbb, 0xbb, 0xbb, 0xbb, 0, 0, 0, 0, //
            0xcc, 0xcc, 0xcc, 0xcc, //
            0x08, 0x07, 0x06, 0x05, 0x04, 0x03, 0x02, 0x01, //
            0x18, 0x17, 0x16, 0x15, 0x14, 0x13, 0x12, 0x11, //
            0, 0, 0, 0,
        ]
    );
}

#[test]
fn missing_normal_buffer_fails_assembly() {
    let layout = SbtLayout::new(&props(32, 64), 3).unwrap();
    let meshes = vec![
        mesh_with(Some(0x100), Some(0x200)),
        mesh_with(Some(0x300), None),
        mesh_with(None, None),
    ];
    let r = assemble_sbt(&layout, &handles(1, 32, 0), &handles(1, 32, 1), &handles(3, 32, 2), &meshes);
    assert_eq!(r, Err(SbtError::MissingNormalBuffer(1)));
}

#[test]
fn missing_index_buffer_fails_assembly() {
    let layout = SbtLayout::new(&props(32, 64), 2).unwrap();
    let meshes = vec![mesh_with(None, Some(0x200)), mesh_with(Some(0x300), None)];
    let r = assemble_sbt(&layout, &handles(1, 32, 0), &handles(1, 32, 1), &handles(2, 32, 2), &meshes);
    assert_eq!(r, Err(SbtError::MissingIndexBuffer(0)));
}

#[test]
fn normal_buffer_without_device_address_fails_assembly() {
    let layout = SbtLayout::new(&props(32, 64), 1).unwrap();
    let mut mesh = mesh_with(Some(0x100), Some(0x200));
    mesh.normals = Some(Buffer { buffer: 3, size: 48, usage: 0x80, address: 0x200 });
    let r = assemble_sbt(&layout, &handles(1, 32, 0), &handles(1, 32, 1), &handles(1, 32, 2), &vec![mesh]);
    assert_eq!(r, Err(SbtError::MissingNormalBuffer(0)));
}

#[test]
fn wrong_handle_data_or_instance_count_is_refused() {
    let layout = SbtLayout::new(&props(32, 64), 2).unwrap();
    let meshes = vec![mesh_with(Some(1), Some(2)), mesh_with(Some(3), Some(4))];
    let short = handles(1, 31, 0);
    assert_eq!(
        assemble_sbt(&layout, &short, &handles(1, 32, 1), &handles(2, 32, 2), &meshes),
        Err(SbtError::HandleDataSize)
    );
    assert_eq!(
        assemble_sbt(&layout, &handles(1, 32, 0), &handles(1, 32, 1), &handles(3, 32, 2), &meshes),
        Err(SbtError::HandleDataSize)
    );
    assert_eq!(
        assemble_sbt(&layout, &handles(1, 32, 0), &handles(1, 32, 1), &handles(2, 32, 2), &meshes[..1].to_vec()),
        Err(SbtError::InstanceCountMismatch)
    );
}

#[test]
fn dispatch_regions_point_at_the_assembled_records() {
    let layout = SbtLayout::new(&props(32, 64), 3).unwrap();
    let regions = layout.regions(0x10_0000);
    assert_eq!(regions.raygen.device_address, 0x10_0000);
    assert_eq!(regions.raygen.stride, 64);
    assert_eq!(regions.raygen.size, 64);
    assert_eq!(regions.miss.device_address, 0x10_0040);
    assert_eq!(regions.miss.size, 64);
    assert_eq!(regions.hit.device_address, 0x10_0080);
    assert_eq!(regions.hit.stride, 64);
    assert_eq!(regions.hit.size, 192);
    assert_eq!(regions.callable.size, 0);
    assert_eq!(regions.callable.device_address, 0);
    for i in 0..3u32 {
        assert_eq!(
            regions.hit.device_address + i as u64 * regions.hit.stride,
            0x10_0000 + layout.hit_record_offset(i) as u64
        );
    }
    assert!(layout.is_valid());
    assert!(!SbtLayout { handle_size: 32, base_alignment: 0, num_instances: 1 }.is_valid());
}

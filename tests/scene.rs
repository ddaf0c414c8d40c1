use rtx_renderer::acceleration_structure::{
    describe_bottom_level, AccelerationStructureData, BuildError, TopLevelAccelerationStructure, TopLevelInstances,
    INSTANCE_RECORD_BYTES,
};
use rtx_renderer::device_mesh::{
    attribute_size, attribute_usage, AttributeType, Buffer, DeviceMesh, DeviceMeshError, BUFFER_USAGE_AS_BUILD_INPUT,
    BUFFER_USAGE_INDEX_BUFFER, BUFFER_USAGE_SHADER_DEVICE_ADDRESS, BUFFER_USAGE_VERTEX_BUFFER,
};
use rtx_renderer::renderers::{
    shader_groups, FrameResources, Phase, RayTraceState, RebuildError, ShaderGroup, NUM_ATTRIBUTES,
};
use rtx_renderer::sbt::{RayTracingProperties, SbtLayout};

const RT: u32 = BUFFER_USAGE_SHADER_DEVICE_ADDRESS;

fn usage(attribute: AttributeType) -> u32 {
    attribute_usage(attribute, true)
}

fn quad_mesh(with_normals: bool) -> DeviceMesh {
    let position = Buffer { buffer: 11, size: 48, usage: usage(AttributeType::Position), address: 0xa000 };
    let indices = Buffer { buffer: 12, size: 24, usage: usage(AttributeType::Index), address: 0xb000 };
    let normals = Buffer { buffer: 13, size: 48, usage: usage(AttributeType::Normals), address: 0xc000 };
    DeviceMesh::new(4, 2, position, indices, if with_normals { Some(normals) } else { None }, true).unwrap()
}

fn identity(i: u32) -> [u32; 12] {
    let one = 1.0f32.to_bits();
    [one, 0, 0, (100.0 * i as f32).to_bits(), 0, (1.0 + i as f32).to_bits(), 0, 0, 0, 0, one, 0]
}

fn blas(mesh: DeviceMesh, handle: u64) -> AccelerationStructureData {
    AccelerationStructureData::new(handle + 1000, Buffer { buffer: handle, size: 256, usage: RT, address: handle }, handle, mesh)
        .unwrap()
}

fn scene(meshes: &[DeviceMesh]) -> TopLevelAccelerationStructure {
    let bottom: Vec<_> = meshes.iter().enumerate().map(|(i, m)| (blas(*m, 0x5000 + i as u64 * 0x100), identity(i as u32))).collect();
    let instances = TopLevelInstances::new(bottom, NUM_ATTRIBUTES).unwrap();
    TopLevelAccelerationStructure::new(instances, 0x7777, Buffer { buffer: 77, size: 1024, usage: RT, address: 0x9000 }, 0x9000)
}

fn props() -> RayTracingProperties {
    RayTracingProperties { shader_group_handle_size: 32, shader_group_base_alignment: 64 }
}

/// Runs one resolution change the way the renderer does it and returns the
/// assembled table.
fn set_resolution(state: &mut RayTraceState, width: u32, height: u32, views: Vec<u64>) -> Vec<u8> {
    state.begin_rebuild();
    let n = state.num_instances();
    let raygen = vec![1u8; 32];
    let miss = vec![2u8; 32];
    let hit: Vec<u8> = (0..n * 32).map(|k| (k % 251) as u8).collect();
    let (layout, table) = state.assemble_sbt(&props(), &raygen, &miss, &hit).unwrap();
    let frame = FrameResources { layout, sbt_address: 0x40_0000, width, height, image_views: views, descriptor_set: 5 };
    state.finish_rebuild(frame).unwrap();
    table
}

#[test]
fn attribute_buffers_are_sized_per_element() {
    assert_eq!(attribute_size(AttributeType::Position, 4, 2), 48);
    assert_eq!(attribute_size(AttributeType::Normals, 4, 2), 48);
    assert_eq!(attribute_size(AttributeType::Index, 4, 2), 24);
    assert_eq!(attribute_size(AttributeType::Position, u32::MAX, 0), 12 * u32::MAX as u64);
    assert_eq!(attribute_usage(AttributeType::Index, false), BUFFER_USAGE_INDEX_BUFFER);
    assert_eq!(attribute_usage(AttributeType::Position, false), BUFFER_USAGE_VERTEX_BUFFER);
    assert_eq!(
        attribute_usage(AttributeType::Normals, true),
        BUFFER_USAGE_VERTEX_BUFFER | BUFFER_USAGE_SHADER_DEVICE_ADDRESS | BUFFER_USAGE_AS_BUILD_INPUT
    );
    assert_eq!(attribute_usage(AttributeType::Index, true), 0x40 | 0x2_0000 | 0x8_0000);
}

#[test]
fn device_mesh_checks_buffer_sizes() {
    let p = Buffer { buffer: 1, size: 48, usage: usage(AttributeType::Position), address: 1 };
    let i = Buffer { buffer: 2, size: 24, usage: usage(AttributeType::Index), address: 2 };
    let n = Buffer { buffer: 4, size: 48, usage: usage(AttributeType::Normals), address: 4 };
    let bad = Buffer { buffer: 3, size: 47, usage: usage(AttributeType::Position), address: 3 };
    assert!(DeviceMesh::new(4, 2, p, i, None, true).is_ok());
    assert!(DeviceMesh::new(4, 2, p, i, Some(n), true).is_ok());
    assert_eq!(DeviceMesh::new(4, 2, bad, i, None, true), Err(DeviceMeshError::BufferSizeMismatch(AttributeType::Position)));
    assert_eq!(DeviceMesh::new(4, 2, p, i, Some(bad), true), Err(DeviceMeshError::BufferSizeMismatch(AttributeType::Normals)));
    assert_eq!(DeviceMesh::new(4, 2, p, bad, None, true), Err(DeviceMeshError::BufferSizeMismatch(AttributeType::Index)));
    let m = DeviceMesh::new(4, 2, p, i, None, true).unwrap();
    assert_eq!(m.num_vertices(), 4);
    assert_eq!(m.num_triangles(), 2);
    assert_eq!(m.position(), Some(1));
    assert_eq!(m.indices(), Some(2));
    assert_eq!(m.normals(), None);
    assert_eq!(m.indices_device_address(), Some(2));
    let plain = Buffer { buffer: 9, size: 48, usage: BUFFER_USAGE_VERTEX_BUFFER, address: 0x99 };
    assert_eq!(plain.device_address(), None);
    assert_eq!(plain.buffer(), 9);
}

#[test]
fn bottom_level_geometry_covers_the_mesh() {
    let g = describe_bottom_level(&quad_mesh(true)).unwrap();
    assert_eq!(g.vertex_address, 0xa000);
    assert_eq!(g.index_address, 0xb000);
    assert_eq!(g.max_vertex, 3);
    assert_eq!(g.vertex_stride, 12);
    assert_eq!(g.primitive_count, 2);
    assert!(g.opaque);
}

#[test]
fn bottom_level_geometry_needs_positions_indices_and_content() {
    let mut m = quad_mesh(true);
    m.position = None;
    assert_eq!(describe_bottom_level(&m), Err(BuildError::MissingVertexBuffer));
    let mut m = quad_mesh(true);
    m.indices = None;
    assert_eq!(describe_bottom_level(&m), Err(BuildError::MissingIndexBuffer));
    let mut m = quad_mesh(true);
    m.num_vertices = 0;
    assert_eq!(describe_bottom_level(&m), Err(BuildError::NoVertices));
    let mut m = quad_mesh(true);
    m.num_triangles = 0;
    let g = describe_bottom_level(&m).unwrap();
    assert_eq!(g.primitive_count, 0);
    assert_eq!(g.max_vertex, 3);
    assert_eq!(g.vertex_address, 0xa000);
}

#[test]
fn bottom_level_reference_is_non_zero_and_stable() {
    let b = blas(quad_mesh(true), 0xdead_0000);
    assert_ne!(b.reference(), 0);
    assert_eq!(b.reference(), b.reference());
    assert_eq!(b.reference(), 0xdead_0000);
    assert_eq!(*b.mesh(), quad_mesh(true));
    let zero = AccelerationStructureData::new(1, Buffer { buffer: 1, size: 1, usage: RT, address: 0 }, 0, quad_mesh(true));
    assert_eq!(zero, Err(BuildError::NullDeviceAddress));
}

#[test]
fn instance_records_carry_offsets_in_order() {
    let meshes = [quad_mesh(true), quad_mesh(true), quad_mesh(false)];
    let t = scene(&meshes);
    assert_eq!(t.num_instances(), 3);
    let records = &t.instances.records;
    assert_eq!(records.len(), 3);
    for (i, r) in records.iter().enumerate() {
        assert_eq!(r.instance_shader_binding_table_record_offset_and_flags & 0xff_ffff, NUM_ATTRIBUTES * i as u32);
        assert_eq!(r.instance_shader_binding_table_record_offset_and_flags >> 24, 1);
        assert_eq!(r.instance_custom_index_and_mask, 0xff00_0000);
        assert_eq!(r.acceleration_structure_reference, 0x5000 + i as u64 * 0x100);
        assert_eq!(r.transform, identity(i as u32));
    }
    assert_eq!(t.meshes(), meshes.to_vec());
    assert_eq!(t.structure(), 0x7777);
    assert_eq!(t.bottomlevel_as().len(), 3);
}

#[test]
fn instance_bytes_use_the_device_layout() {
    let t = scene(&[quad_mesh(true), quad_mesh(true)]);
    let bytes = t.instances.instance_bytes();
    assert_eq!(bytes.len(), 2 * INSTANCE_RECORD_BYTES);
    let second = &bytes[64..128];
    assert_eq!(&second[0..4], &1.0f32.to_bits().to_le_bytes());
    assert_eq!(&second[12..16], &100.0f32.to_bits().to_le_bytes());
    assert_eq!(&second[20..24], &2.0f32.to_bits().to_le_bytes());
    assert_eq!(&second[48..52], &[0, 0, 0, 0xff]);
    assert_eq!(&second[52..56], &[2, 0, 0, 1]);
    assert_eq!(&second[56..64], &0x5100u64.to_le_bytes());
}

#[test]
fn instance_offsets_must_fit_their_field() {
    let bottom = vec![(blas(quad_mesh(true), 1), identity(0)), (blas(quad_mesh(true), 2), identity(1))];
    assert!(TopLevelInstances::new(bottom.clone(), 0xff_ffff).is_ok());
    assert_eq!(TopLevelInstances::new(bottom, 0x100_0000).unwrap_err(), BuildError::RecordOffsetOverflow);
    let many: Vec<_> = (0..3).map(|i| (blas(quad_mesh(true), i + 1), identity(i as u32))).collect();
    assert_eq!(TopLevelInstances::new(many, 0x80_0000).unwrap_err(), BuildError::RecordOffsetOverflow);
}

#[test]
fn one_mesh_scene_draws_with_its_structure_and_first_view() {
    let tlas = scene(&[quad_mesh(true)]);
    assert_eq!(tlas.num_instances(), 1);
    let mut state = RayTraceState::new();
    assert_eq!(state.phase, Phase::Uninitialized);
    state.set_toplevel(tlas);
    assert_eq!(state.num_instances(), 1);
    assert_eq!(
        state.shader_groups(),
        vec![ShaderGroup::General(0), ShaderGroup::General(1), ShaderGroup::TrianglesHitGroup(2)]
    );
    let table = set_resolution(&mut state, 800, 600, vec![0x61, 0x62, 0x63]);
    assert_eq!(table.len(), 64 + 64 + 64);
    assert_eq!(&table[160..168], &0xb000u64.to_le_bytes());
    assert_eq!(&table[168..176], &0xc000u64.to_le_bytes());
    assert_eq!(state.phase, Phase::Ready);
    let plan = state.plan_draw(0).unwrap();
    assert_eq!(plan.acceleration_structure, 0x7777);
    assert_eq!(plan.image_view, 0x61);
    assert_eq!(plan.descriptor_set, 5);
    assert_eq!((plan.width, plan.height, plan.depth), (800, 600, 1));
    assert_eq!(plan.regions.raygen.device_address, 0x40_0000);
    assert_eq!(plan.regions.hit.size, 64);
    assert_eq!(state.plan_draw(2).unwrap().image_view, 0x63);
    assert!(state.plan_draw(3).is_none());
}

#[test]
fn empty_scene_builds_and_traces_nothing() {
    let instances = TopLevelInstances::new(Vec::new(), NUM_ATTRIBUTES).unwrap();
    assert_eq!(instances.len(), 0);
    assert!(instances.instance_bytes().is_empty());
    let tlas = TopLevelAccelerationStructure::new(instances, 0x42, Buffer { buffer: 4, size: 64, usage: RT, address: 0x43 }, 0x43);
    assert_eq!(tlas.num_instances(), 0);
    let mut state = RayTraceState::new();
    state.set_toplevel(tlas);
    let table = set_resolution(&mut state, 800, 600, vec![1, 2]);
    assert_eq!(table.len(), 128);
    assert_eq!(state.shader_groups().len(), 2);
    assert!(state.plan_draw(0).is_none());
}

#[test]
fn setting_the_same_resolution_twice_gives_the_same_table() {
    let mut state = RayTraceState::new();
    state.set_toplevel(scene(&[quad_mesh(true), quad_mesh(true)]));
    let first = set_resolution(&mut state, 800, 600, vec![1, 2, 3]);
    let plan_first = state.plan_draw(1).unwrap();
    let second = set_resolution(&mut state, 800, 600, vec![1, 2, 3]);
    let plan_second = state.plan_draw(1).unwrap();
    assert_eq!(first, second);
    assert_eq!(plan_first, plan_second);
    assert_eq!(state.num_instances(), 2);
}

#[test]
fn draw_needs_a_scene_and_a_resolution() {
    let state = RayTraceState::new();
    assert!(state.plan_draw(0).is_none());
    let mut state = RayTraceState::new();
    state.set_toplevel(scene(&[quad_mesh(true)]));
    assert!(state.plan_draw(0).is_none());
    set_resolution(&mut state, 640, 480, vec![1]);
    assert!(state.plan_draw(0).is_some());
    state.set_toplevel(scene(&[quad_mesh(true), quad_mesh(true)]));
    assert_eq!(state.phase, Phase::Rebuilding);
    assert!(state.plan_draw(0).is_none());
}

#[test]
fn rebuild_refuses_mismatched_frames() {
    let mut state = RayTraceState::new();
    state.set_toplevel(scene(&[quad_mesh(true)]));
    let layout = SbtLayout::new(&props(), 2).unwrap();
    let frame = FrameResources { layout, sbt_address: 0, width: 1, height: 1, image_views: vec![1], descriptor_set: 1 };
    assert_eq!(state.finish_rebuild(frame), Err(RebuildError::LayoutMismatch));
    let layout = SbtLayout::new(&props(), 1).unwrap();
    let frame = FrameResources { layout, sbt_address: u64::MAX - 10, width: 1, height: 1, image_views: vec![1], descriptor_set: 1 };
    assert_eq!(state.finish_rebuild(frame), Err(RebuildError::LayoutMismatch));
    let frame = FrameResources { layout, sbt_address: 0x1000, width: 1, height: 1, image_views: vec![1], descriptor_set: 1 };
    assert_eq!(state.finish_rebuild(frame.clone()), Ok(()));
    assert_eq!(state.finish_rebuild(frame), Err(RebuildError::NotRebuilding));
}

#[test]
fn pipeline_has_one_hit_group_per_instance() {
    let groups = shader_groups(3);
    assert_eq!(groups.len(), 5);
    assert_eq!(groups[0], ShaderGroup::General(0));
    assert_eq!(groups[1], ShaderGroup::General(1));
    assert!(groups[2..].iter().all(|g| *g == ShaderGroup::TrianglesHitGroup(2)));
    assert_eq!(shader_groups(0).len(), 2);
}

#[test]
fn hit_records_pair_with_instances() {
    let mesh = |base: u64| {
        DeviceMesh::new(
            4,
            2,
            Buffer { buffer: base, size: 48, usage: usage(AttributeType::Position), address: base },
            Buffer { buffer: base + 1, size: 24, usage: usage(AttributeType::Index), address: base + 0x10 },
            Some(Buffer { buffer: base + 2, size: 48, usage: usage(AttributeType::Normals), address: base + 0x20 }),
            true,
        )
        .unwrap()
    };
    let mut state = RayTraceState::new();
    state.set_toplevel(scene(&[mesh(0x1000), mesh(0x2000), mesh(0x3000)]));
    let table = set_resolution(&mut state, 800, 600, vec![7]);
    let layout = SbtLayout::new(&props(), 3).unwrap();
    for (i, base) in [0x1000u64, 0x2000, 0x3000].iter().enumerate() {
        let off = layout.hit_record_offset(i as u32) as usize;
        assert_eq!(&table[off + 32..off + 40], &(base + 0x10).to_le_bytes());
        assert_eq!(&table[off + 40..off + 48], &(base + 0x20).to_le_bytes());
    }
}

#[test]
fn device_mesh_checks_buffer_usage() {
    let plain = |attribute| attribute_usage(attribute, false);
    let p = Buffer { buffer: 1, size: 48, usage: plain(AttributeType::Position), address: 0 };
    let i = Buffer { buffer: 2, size: 24, usage: plain(AttributeType::Index), address: 0 };
    let n = Buffer { buffer: 3, size: 48, usage: plain(AttributeType::Normals), address: 0 };
    let m = DeviceMesh::new(4, 2, p, i, Some(n), false).unwrap();
    assert_eq!(m.indices_device_address(), None);
    assert_eq!(DeviceMesh::new(4, 2, p, i, Some(n), true), Err(DeviceMeshError::BufferUsageMismatch(AttributeType::Position)));
    let rp = Buffer { usage: usage(AttributeType::Position), ..p };
    assert_eq!(DeviceMesh::new(4, 2, rp, i, Some(n), true), Err(DeviceMeshError::BufferUsageMismatch(AttributeType::Normals)));
    let rn = Buffer { usage: usage(AttributeType::Normals), ..n };
    assert_eq!(DeviceMesh::new(4, 2, rp, i, Some(rn), true), Err(DeviceMeshError::BufferUsageMismatch(AttributeType::Index)));
    assert_eq!(DeviceMesh::new(4, 2, rp, i, Some(rn), false), Err(DeviceMeshError::BufferUsageMismatch(AttributeType::Position)));
}

#[test]
fn recording_accepts_every_non_zero_address() {
    for handle in [1u64, 0x5000, u64::MAX] {
        let b = AccelerationStructureData::new(9, Buffer { buffer: 9, size: 64, usage: RT, address: handle }, handle, quad_mesh(true))
            .unwrap();
        assert_eq!(b.reference(), handle);
        assert_eq!(b.structure, 9);
    }
}

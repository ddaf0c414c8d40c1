//! Acceleration structures: the triangle geometry of one mesh (bottom level)
//! and the instance records that reference those structures (top level).

use vstd::prelude::*;
use crate::bytes::{le_bytes_u32, le_bytes_u64, push_le_u32, push_le_u64};
use crate::device_mesh::{Buffer, DeviceMesh, VEC3_BYTES};

verus! {

/// Instance flag: triangles are visible from both faces.
pub const INSTANCE_FLAG_TRIANGLE_FACING_CULL_DISABLE: u8 = 0x1;

/// Instance mask under which every ray sees the instance.
pub const INSTANCE_MASK_ALL: u8 = 0xff;

/// Largest binding-table record offset an instance record can hold.
pub const MAX_RECORD_OFFSET: u32 = 0xff_ffff;

/// Bytes of one instance record as the device reads it.
pub const INSTANCE_RECORD_BYTES: usize = 64;

#[derive(Clone, Copy, Debug, PartialEq, Eq, Structural)]
pub enum BuildError {
    /// The mesh has no position buffer with a device address.
    MissingVertexBuffer,
    /// The mesh has no index buffer with a device address.
    MissingIndexBuffer,
    /// The mesh has no vertex, so no vertex index can be valid.
    NoVertices,
    /// The device returned address zero for a built structure.
    NullDeviceAddress,
    /// An instance's binding-table offset does not fit its 24-bit field.
    RecordOffsetOverflow,
}

/// One opaque triangle geometry as handed to a bottom-level build.
#[derive(Clone, Copy, Debug, PartialEq, Eq, Structural)]
pub struct TriangleGeometry {
    pub vertex_address: u64,
    pub max_vertex: u32,
    pub vertex_stride: u64,
    pub index_address: u64,
    pub primitive_count: u32,
    pub opaque: bool,
}

/// The geometry of a mesh's bottom-level structure, or why there is none.
pub open spec fn spec_bottom_level_geometry(mesh: DeviceMesh) -> Result<TriangleGeometry, BuildError> {
    match (DeviceMesh::address_of(mesh.position), DeviceMesh::address_of(mesh.indices)) {
        (None, _) => Err(BuildError::MissingVertexBuffer),
        (Some(_), None) => Err(BuildError::MissingIndexBuffer),
        (Some(v), Some(i)) => if mesh.num_vertices == 0 {
            Err(BuildError::NoVertices)
        } else {
            Ok(TriangleGeometry {
                vertex_address: v,
                max_vertex: (mesh.num_vertices - 1) as u32,
                vertex_stride: VEC3_BYTES,
                index_address: i,
                primitive_count: mesh.num_triangles,
                opaque: true,
            })
        },
    }
}

/// Describes the single triangle geometry of a bottom-level build over
/// `mesh`: its positions (three floats per vertex) and its 32-bit indices.
/// Fails before any device work when a buffer is missing or the mesh has
/// no vertex; a mesh without triangles gives a geometry of no primitives.
pub fn describe_bottom_level(mesh: &DeviceMesh) -> (r: Result<TriangleGeometry, BuildError>)
    ensures
        r == spec_bottom_level_geometry(*mesh),
{
    let vertex_address = match mesh.position_device_address() {
        Some(a) => a,
        None => return Err(BuildError::MissingVertexBuffer),
    };
    let index_address = match mesh.indices_device_address() {
        Some(a) => a,
        None => return Err(BuildError::MissingIndexBuffer),
    };
    if mesh.num_vertices == 0 {
        return Err(BuildError::NoVertices);
    }
    Ok(TriangleGeometry {
        vertex_address,
        max_vertex: mesh.num_vertices - 1,
        vertex_stride: VEC3_BYTES,
        index_address,
        primitive_count: mesh.num_triangles,
        opaque: true,
    })
}

/// A built bottom-level structure: its handle, backing buffer, device
/// address, and the mesh it was built from.
#[derive(Clone, Copy, Debug, PartialEq, Eq, Structural)]
pub struct AccelerationStructureData {
    pub structure: u64,
    pub buffer: Buffer,
    pub handle: u64,
    pub mesh: DeviceMesh,
}

/// The record of a built bottom-level structure: refused for device address
/// zero, otherwise exactly the given parts.
pub open spec fn spec_record_bottom_level(
    structure: u64,
    buffer: Buffer,
    handle: u64,
    mesh: DeviceMesh,
) -> Result<AccelerationStructureData, BuildError> {
    if handle == 0 {
        Err(BuildError::NullDeviceAddress)
    } else {
        Ok(AccelerationStructureData { structure, buffer, handle, mesh })
    }
}

impl AccelerationStructureData {
    pub open spec fn wf(&self) -> bool {
        self.handle != 0
    }

    /// Records a bottom-level structure that the device has built; a zero
    /// device address is refused, any other is accepted.
    pub fn new(structure: u64, buffer: Buffer, handle: u64, mesh: DeviceMesh) -> (r: Result<Self, BuildError>)
        ensures
            r == spec_record_bottom_level(structure, buffer, handle, mesh),
            r matches Ok(b) ==> b.wf(),
    {
        if handle == 0 {
            Err(BuildError::NullDeviceAddress)
        } else {
            Ok(AccelerationStructureData { structure, buffer, handle, mesh })
        }
    }

    /// The device address by which instance records refer to the structure.
    pub fn reference(&self) -> (r: u64)
        ensures
            r == self.handle,
    {
        self.handle
    }

    pub fn mesh(&self) -> (r: &DeviceMesh)
        ensures
            *r == self.mesh,
    {
        &self.mesh
    }
}

/// A mesh with at least one triangle, three vertices and both buffers yields
/// a geometry over exactly those buffers and counts; when the device reports
/// a non-zero address for the structure built from it, recording succeeds and
/// the record's reference, which every query returns, is that address.
pub proof fn lemma_bottom_level_build(mesh: DeviceMesh, structure: u64, buffer: Buffer, handle: u64)
    requires
        mesh.num_triangles >= 1,
        mesh.num_vertices >= 3,
        DeviceMesh::address_of(mesh.position) is Some,
        DeviceMesh::address_of(mesh.indices) is Some,
        handle != 0,
    ensures
        spec_bottom_level_geometry(mesh) matches Ok(g) && g.primitive_count == mesh.num_triangles
            && g.max_vertex == mesh.num_vertices - 1 && Some(g.vertex_address) == DeviceMesh::address_of(mesh.position)
            && Some(g.index_address) == DeviceMesh::address_of(mesh.indices) && g.opaque,
        spec_record_bottom_level(structure, buffer, handle, mesh) matches Ok(b) && b.wf() && b.handle == handle
            && b.handle != 0 && b.mesh == mesh,
{
}

/// The two 32-bit words of an instance record that pack a 24-bit value below
/// an 8-bit value.
pub open spec fn spec_packed_24_8(low_24: u32, high_8: u8) -> u32 {
    (low_24 & 0x00ff_ffff) | ((high_8 as u32) << 24u32)
}

pub fn packed_24_8(low_24: u32, high_8: u8) -> (r: u32)
    ensures
        r == spec_packed_24_8(low_24, high_8),
{
    (low_24 & 0x00ff_ffff) | ((high_8 as u32) << 24u32)
}

/// The low 24 bits of a packed word.
pub open spec fn low_24(x: u32) -> u32 {
    x & 0x00ff_ffff
}

/// The high 8 bits of a packed word.
pub open spec fn high_8(x: u32) -> u8 {
    (x >> 24u32) as u8
}

proof fn lemma_packed_fields(low: u32, high: u8)
    requires
        low <= MAX_RECORD_OFFSET,
    ensures
        low_24(spec_packed_24_8(low, high)) == low,
        high_8(spec_packed_24_8(low, high)) == high,
{
    let h = high as u32;
    assert(((low & 0x00ff_ffff) | (h << 24u32)) & 0x00ff_ffff == low) by (bit_vector)
        requires
            low <= 0xff_ffff,
    ;
    assert(((((low & 0x00ff_ffff) | (h << 24u32)) >> 24u32) as u8) == h as u8) by (bit_vector)
        requires
            h <= 0xff,
    ;
}

/// One record of the instance array read by a top-level build.
#[derive(Clone, Copy, Debug)]
pub struct InstanceRecord {
    /// Row-major 3x4 transform, as the bit patterns of its floats.
    pub transform: [u32; 12],
    pub instance_custom_index_and_mask: u32,
    pub instance_shader_binding_table_record_offset_and_flags: u32,
    pub acceleration_structure_reference: u64,
}

/// The record of instance `i`: its transform, a binding-table offset of
/// `attributes_per_instance * i`, culling disabled, every ray mask bit and
/// the bottom-level reference.
pub open spec fn spec_instance_record(
    reference: u64,
    transform: [u32; 12],
    attributes_per_instance: u32,
    i: int,
) -> InstanceRecord {
    InstanceRecord {
        transform,
        instance_custom_index_and_mask: spec_packed_24_8(0, INSTANCE_MASK_ALL),
        instance_shader_binding_table_record_offset_and_flags: spec_packed_24_8(
            (attributes_per_instance * i) as u32,
            INSTANCE_FLAG_TRIANGLE_FACING_CULL_DISABLE,
        ),
        acceleration_structure_reference: reference,
    }
}

/// All offsets of `n` instances fit the record field.
pub open spec fn offsets_fit(attributes_per_instance: u32, n: int) -> bool {
    n == 0 || attributes_per_instance * (n - 1) <= MAX_RECORD_OFFSET
}

/// The bytes of one record: the twelve transform words, the two packed words
/// and the reference, all little-endian.
pub open spec fn record_bytes(r: InstanceRecord) -> Seq<u8> {
    transform_bytes(r.transform@, 12)
        + le_bytes_u32(r.instance_custom_index_and_mask)
        + le_bytes_u32(r.instance_shader_binding_table_record_offset_and_flags)
        + le_bytes_u64(r.acceleration_structure_reference)
}

/// The bytes of the first `count` transform words.
pub open spec fn transform_bytes(t: Seq<u32>, count: nat) -> Seq<u8>
    decreases count,
{
    if count == 0 {
        Seq::empty()
    } else {
        transform_bytes(t, (count - 1) as nat) + le_bytes_u32(t[count - 1])
    }
}

/// The bytes of the first `count` records.
pub open spec fn records_bytes(records: Seq<InstanceRecord>, count: nat) -> Seq<u8>
    decreases count,
{
    if count == 0 {
        Seq::empty()
    } else {
        records_bytes(records, (count - 1) as nat) + record_bytes(records[count - 1])
    }
}

/// The instances of a top-level structure before it is built: the
/// bottom-level structures with their transforms, and one record each.
#[derive(Clone, Debug)]
pub struct TopLevelInstances {
    pub bottomlevel_as: Vec<(AccelerationStructureData, [u32; 12])>,
    pub records: Vec<InstanceRecord>,
    pub attributes_per_instance: u32,
}

impl TopLevelInstances {
    pub open spec fn wf(&self) -> bool {
        &&& self.records@.len() == self.bottomlevel_as@.len()
        &&& offsets_fit(self.attributes_per_instance, self.records@.len() as int)
        &&& forall|i: int| 0 <= i < self.records@.len() ==> #[trigger] self.records@[i] == spec_instance_record(
            self.bottomlevel_as@[i].0.handle,
            self.bottomlevel_as@[i].1,
            self.attributes_per_instance,
            i,
        )
    }

    /// Makes one record per bottom-level structure, in order; instance `i`
    /// gets binding-table offset `attributes_per_instance * i`.
    pub fn new(
        bottomlevel_as: Vec<(AccelerationStructureData, [u32; 12])>,
        attributes_per_instance: u32,
    ) -> (r: Result<Self, BuildError>)
        ensures
            offsets_fit(attributes_per_instance, bottomlevel_as@.len() as int) <==> r is Ok,
            r matches Err(e) ==> e == BuildError::RecordOffsetOverflow,
            r matches Ok(t) ==> t.wf() && t.bottomlevel_as@ == bottomlevel_as@
                && t.attributes_per_instance == attributes_per_instance,
    {
        let n = bottomlevel_as.len();
        if n > 0 {
            proof {
                assert(attributes_per_instance * (n - 1) <= 0xffff_ffffu128 * 0xffff_ffff_ffff_ffffu128) by (nonlinear_arith)
                    requires
                        attributes_per_instance <= 0xffff_ffffu128,
                        0 <= n - 1 <= 0xffff_ffff_ffff_ffffu128,
                ;
            }
        }
        if n > 0 && (attributes_per_instance as u128) * ((n - 1) as u128) > MAX_RECORD_OFFSET as u128 {
            return Err(BuildError::RecordOffsetOverflow);
        }
        let mut records: Vec<InstanceRecord> = Vec::new();
        let mut i: usize = 0;
        while i < n
            invariant
                n == bottomlevel_as@.len(),
                offsets_fit(attributes_per_instance, n as int),
                i <= n,
                records@.len() == i,
                forall|j: int| 0 <= j < i ==> #[trigger] records@[j] == spec_instance_record(
                    bottomlevel_as@[j].0.handle,
                    bottomlevel_as@[j].1,
                    attributes_per_instance,
                    j,
                ),
            decreases n - i,
        {
            proof {
                assert(attributes_per_instance * i <= attributes_per_instance * (n - 1)) by (nonlinear_arith)
                    requires
                        i <= n - 1,
                ;
                assert(attributes_per_instance > 0 ==> i <= attributes_per_instance * i) by (nonlinear_arith)
                    requires
                        i >= 0,
                ;
            }
            let offset: u32 = if attributes_per_instance == 0 {
                assert(attributes_per_instance as int * i as int == 0) by (nonlinear_arith)
                    requires
                        attributes_per_instance == 0,
                ;
                0
            } else {
                assert(i <= MAX_RECORD_OFFSET);
                assert((i as u32) as int == i as int);
                attributes_per_instance * i as u32
            };
            let (blas, transform) = &bottomlevel_as[i];
            records.push(InstanceRecord {
                transform: *transform,
                instance_custom_index_and_mask: packed_24_8(0, INSTANCE_MASK_ALL),
                instance_shader_binding_table_record_offset_and_flags: packed_24_8(
                    offset,
                    INSTANCE_FLAG_TRIANGLE_FACING_CULL_DISABLE,
                ),
                acceleration_structure_reference: blas.reference(),
            });
            i += 1;
        }
        Ok(TopLevelInstances { bottomlevel_as, records, attributes_per_instance })
    }
}


proof fn lemma_transform_bytes_len(t: Seq<u32>, count: nat)
    ensures
        transform_bytes(t, count).len() == 4 * count,
    decreases count,
{
    if count > 0 {
        lemma_transform_bytes_len(t, (count - 1) as nat);
    }
}

/// Every record takes the same number of bytes.
pub proof fn lemma_record_bytes_len(r: InstanceRecord)
    ensures
        record_bytes(r).len() == INSTANCE_RECORD_BYTES,
{
    lemma_transform_bytes_len(r.transform@, 12);
}

proof fn lemma_records_bytes_len(records: Seq<InstanceRecord>, count: nat)
    ensures
        records_bytes(records, count).len() == INSTANCE_RECORD_BYTES * count,
    decreases count,
{
    if count > 0 {
        lemma_records_bytes_len(records, (count - 1) as nat);
        lemma_record_bytes_len(records[count - 1]);
    }
}

/// Appends the bytes of one record.
fn push_record(out: &mut Vec<u8>, r: &InstanceRecord)
    ensures
        final(out)@ == old(out)@ + record_bytes(*r),
{
    let ghost start = old(out)@;
    let mut k: usize = 0;
    while k < 12
        invariant
            k <= 12,
            out@ == start + transform_bytes(r.transform@, k as nat),
        decreases 12 - k,
    {
        push_le_u32(out, r.transform[k]);
        k += 1;
        assert(out@ =~= start + transform_bytes(r.transform@, k as nat));
    }
    push_le_u32(out, r.instance_custom_index_and_mask);
    push_le_u32(out, r.instance_shader_binding_table_record_offset_and_flags);
    push_le_u64(out, r.acceleration_structure_reference);
    assert(out@ =~= start + record_bytes(*r));
}

impl TopLevelInstances {
    pub fn len(&self) -> (r: usize)
        ensures
            r == self.bottomlevel_as@.len(),
    {
        self.bottomlevel_as.len()
    }

    /// The instance array as uploaded for the top-level build: the records
    /// in order, each in its device layout.
    pub fn instance_bytes(&self) -> (r: Vec<u8>)
        ensures
            r@ == records_bytes(self.records@, self.records@.len()),
            r@.len() == INSTANCE_RECORD_BYTES * self.records@.len(),
    {
        let mut out: Vec<u8> = Vec::new();
        let mut i: usize = 0;
        while i < self.records.len()
            invariant
                i <= self.records@.len(),
                out@ == records_bytes(self.records@, i as nat),
            decreases self.records@.len() - i,
        {
            push_record(&mut out, &self.records[i]);
            i += 1;
            assert(out@ =~= records_bytes(self.records@, i as nat));
        }
        proof {
            lemma_records_bytes_len(self.records@, self.records@.len());
        }
        out
    }
}

/// Every instance of a top-level structure gets exactly one record, in
/// order, and the uploaded array holds exactly those records: record `i` carries binding-table offset `attributes_per_instance *
/// i`, culling disabled, the full ray mask and the reference of
/// bottom-level structure `i`.
pub proof fn lemma_instance_offsets(t: TopLevelInstances)
    requires
        t.wf(),
    ensures
        t.records@.len() == t.bottomlevel_as@.len(),
        records_bytes(t.records@, t.records@.len()).len() == INSTANCE_RECORD_BYTES * t.bottomlevel_as@.len(),
        forall|i: int| 0 <= i < t.records@.len() ==> {
            let r = #[trigger] t.records@[i];
            &&& low_24(r.instance_shader_binding_table_record_offset_and_flags) == t.attributes_per_instance * i
            &&& high_8(r.instance_shader_binding_table_record_offset_and_flags)
                == INSTANCE_FLAG_TRIANGLE_FACING_CULL_DISABLE
            &&& low_24(r.instance_custom_index_and_mask) == 0
            &&& high_8(r.instance_custom_index_and_mask) == INSTANCE_MASK_ALL
            &&& r.acceleration_structure_reference == t.bottomlevel_as@[i].0.handle
            &&& r.transform == t.bottomlevel_as@[i].1
        },
{
    let n = t.records@.len() as int;
    let a = t.attributes_per_instance;
    lemma_records_bytes_len(t.records@, t.records@.len());
    assert forall|i: int| 0 <= i < n implies {
        let r = #[trigger] t.records@[i];
        &&& low_24(r.instance_shader_binding_table_record_offset_and_flags) == a * i
        &&& high_8(r.instance_shader_binding_table_record_offset_and_flags)
            == INSTANCE_FLAG_TRIANGLE_FACING_CULL_DISABLE
        &&& low_24(r.instance_custom_index_and_mask) == 0
        &&& high_8(r.instance_custom_index_and_mask) == INSTANCE_MASK_ALL
        &&& r.acceleration_structure_reference == t.bottomlevel_as@[i].0.handle
        &&& r.transform == t.bottomlevel_as@[i].1
    } by {
        assert(a * i <= a * (n - 1)) by (nonlinear_arith)
            requires
                0 <= i <= n - 1,
        ;
        assert(0 <= a * i) by (nonlinear_arith)
            requires
                0 <= i,
        ;
        lemma_packed_fields((a * i) as u32, INSTANCE_FLAG_TRIANGLE_FACING_CULL_DISABLE);
        lemma_packed_fields(0, INSTANCE_MASK_ALL);
    }
}

/// A built top-level structure: its handle, backing buffer, device address,
/// and the instances it was built from, which it owns.
#[derive(Clone, Debug)]
pub struct TopLevelAccelerationStructure {
    pub structure: u64,
    pub buffer: Buffer,
    pub handle: u64,
    pub instances: TopLevelInstances,
}

impl TopLevelAccelerationStructure {
    pub open spec fn wf(&self) -> bool {
        self.instances.wf()
    }

    /// Records a top-level structure that the device has built from
    /// `instances`.
    pub fn new(instances: TopLevelInstances, structure: u64, buffer: Buffer, handle: u64) -> (r: Self)
        requires
            instances.wf(),
        ensures
            r.wf(),
            r == (TopLevelAccelerationStructure { structure, buffer, handle, instances }),
    {
        TopLevelAccelerationStructure { structure, buffer, handle, instances }
    }

    /// The handle bound in the descriptor set at draw time.
    pub fn structure(&self) -> (r: u64)
        ensures
            r == self.structure,
    {
        self.structure
    }

    pub fn bottomlevel_as(&self) -> (r: &Vec<(AccelerationStructureData, [u32; 12])>)
        ensures
            r@ == self.instances.bottomlevel_as@,
    {
        &self.instances.bottomlevel_as
    }

    /// Number of instances: one per bottom-level structure.
    pub fn num_instances(&self) -> (r: usize)
        ensures
            r == self.instances.bottomlevel_as@.len(),
    {
        self.instances.bottomlevel_as.len()
    }

    /// The meshes of the instances, in instance order.
    pub fn meshes(&self) -> (r: Vec<DeviceMesh>)
        ensures
            r@.len() == self.instances.bottomlevel_as@.len(),
            forall|i: int| 0 <= i < r@.len() ==> #[trigger] r@[i] == self.instances.bottomlevel_as@[i].0.mesh,
    {
        let blas = &self.instances.bottomlevel_as;
        let mut out: Vec<DeviceMesh> = Vec::new();
        let mut i: usize = 0;
        while i < blas.len()
            invariant
                blas@ == self.instances.bottomlevel_as@,
                i <= blas@.len(),
                out@.len() == i,
                forall|j: int| 0 <= j < i ==> #[trigger] out@[j] == blas@[j].0.mesh,
            decreases blas@.len() - i,
        {
            out.push(*blas[i].0.mesh());
            i += 1;
        }
        out
    }
}

} // verus!

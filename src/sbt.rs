//! The shader binding table: one buffer of aligned records (ray generation,
//! miss, one hit group per instance) and the regions a trace-rays dispatch
//! reads from it.

use vstd::prelude::*;
use crate::align::{align_up, aligned_size_u64, lemma_align_up_bounds};
use crate::bytes::{le_bytes_u64, push_le_u64};
use crate::device_mesh::DeviceMesh;

verus! {

/// Bytes that follow the group handle in each hit record: the device
/// addresses of the instance's index buffer and of its normal buffer.
pub const HIT_RECORD_ADDRESS_BYTES: u32 = 16;

/// What the device reports about shader-group handles.
#[derive(Clone, Copy, Debug, PartialEq, Eq, Structural)]
pub struct RayTracingProperties {
    pub shader_group_handle_size: u32,
    pub shader_group_base_alignment: u32,
}

/// Layout of a binding table for `num_instances` hit groups.
#[derive(Clone, Copy, Debug, PartialEq, Eq, Structural)]
pub struct SbtLayout {
    pub handle_size: u32,
    pub base_alignment: u32,
    pub num_instances: u32,
}

#[derive(Clone, Copy, Debug, PartialEq, Eq, Structural)]
pub enum SbtError {
    /// The device reported a base alignment of zero.
    InvalidAlignment,
    /// The table or one of its records does not fit in 32-bit sizes.
    TableTooLarge,
    /// A handle buffer does not hold exactly one handle per group.
    HandleDataSize,
    /// The number of meshes differs from the number of hit groups.
    InstanceCountMismatch,
    /// The mesh of this instance has no index buffer with a device address.
    MissingIndexBuffer(usize),
    /// The mesh of this instance has no normal buffer with a device address.
    MissingNormalBuffer(usize),
}

impl SbtLayout {
    /// Size and stride of the ray-generation and miss records.
    pub open spec fn spec_group_stride(&self) -> int {
        align_up(self.handle_size as int, self.base_alignment as int)
    }

    /// Stride of the hit records: a handle and two device addresses, aligned.
    pub open spec fn spec_hit_stride(&self) -> int {
        align_up(self.handle_size + HIT_RECORD_ADDRESS_BYTES, self.base_alignment as int)
    }

    /// Total table size: two group records and one hit record per instance.
    pub open spec fn spec_table_size(&self) -> int {
        2 * self.spec_group_stride() + self.num_instances * self.spec_hit_stride()
    }

    /// Offset of the hit record of instance `i`.
    pub open spec fn spec_hit_offset(&self, i: int) -> int {
        2 * self.spec_group_stride() + i * self.spec_hit_stride()
    }

    pub open spec fn wf(&self) -> bool {
        &&& self.base_alignment > 0
        &&& self.spec_hit_stride() <= u32::MAX
        &&& self.spec_table_size() <= u32::MAX
    }

    /// The layout for the given device properties and instance count.
    pub fn new(props: &RayTracingProperties, num_instances: u32) -> (r: Result<SbtLayout, SbtError>)
        ensures
            props.shader_group_base_alignment == 0 <==> r == Err::<SbtLayout, SbtError>(SbtError::InvalidAlignment),
            r matches Ok(l) ==> l.wf() && l == (SbtLayout {
                handle_size: props.shader_group_handle_size,
                base_alignment: props.shader_group_base_alignment,
                num_instances,
            }),
            props.shader_group_base_alignment > 0 ==> (r is Ok <==> (SbtLayout {
                handle_size: props.shader_group_handle_size,
                base_alignment: props.shader_group_base_alignment,
                num_instances,
            }).wf()),
            r matches Err(e) ==> e == SbtError::InvalidAlignment || e == SbtError::TableTooLarge,
    {
        let h = props.shader_group_handle_size;
        let a = props.shader_group_base_alignment;
        if a == 0 {
            return Err(SbtError::InvalidAlignment);
        }
        let layout = SbtLayout { handle_size: h, base_alignment: a, num_instances };
        proof {
            lemma_align_up_bounds(h as int, a as int);
            lemma_align_up_bounds(h + 16, a as int);
        }
        let group = aligned_size_u64(h as u64, a as u64);
        let hit = aligned_size_u64(h as u64 + 16, a as u64);
        proof {
            assert(num_instances * hit <= 0xffff_ffffu128 * 0x2_0000_0010u128) by (nonlinear_arith)
                requires
                    num_instances <= 0xffff_ffffu128,
                    hit <= 0x2_0000_0010u128,
            ;
        }
        let total: u128 = 2 * (group as u128) + (num_instances as u128) * (hit as u128);
        if hit > u32::MAX as u64 || total > u32::MAX as u128 {
            return Err(SbtError::TableTooLarge);
        }
        Ok(layout)
    }

    /// Whether the layout is usable: a non-zero alignment and every size
    /// within 32 bits.
    pub fn is_valid(&self) -> (r: bool)
        ensures
            r == self.wf(),
    {
        let props = RayTracingProperties {
            shader_group_handle_size: self.handle_size,
            shader_group_base_alignment: self.base_alignment,
        };
        SbtLayout::new(&props, self.num_instances).is_ok()
    }

    /// Stride of the ray-generation and miss records.
    pub fn group_stride(&self) -> (r: u32)
        requires
            self.wf(),
        ensures
            r == self.spec_group_stride(),
    {
        proof {
            lemma_align_up_bounds(self.handle_size as int, self.base_alignment as int);
        }
        aligned_size_u64(self.handle_size as u64, self.base_alignment as u64) as u32
    }

    /// Stride of the hit records.
    pub fn hit_stride(&self) -> (r: u32)
        requires
            self.wf(),
        ensures
            r == self.spec_hit_stride(),
    {
        proof {
            lemma_align_up_bounds(self.handle_size + 16, self.base_alignment as int);
        }
        aligned_size_u64(self.handle_size as u64 + 16, self.base_alignment as u64) as u32
    }

    /// Size in bytes of the whole table.
    pub fn table_size(&self) -> (r: u32)
        requires
            self.wf(),
        ensures
            r == self.spec_table_size(),
    {
        let g = self.group_stride();
        let s = self.hit_stride();
        proof {
            lemma_align_up_bounds(self.handle_size + 16, self.base_alignment as int);
            assert(self.num_instances * s <= self.spec_table_size());
        }
        2 * g + self.num_instances * s
    }

    /// Offset of the hit record of instance `i`.
    pub fn hit_record_offset(&self, i: u32) -> (r: u32)
        requires
            self.wf(),
            i < self.num_instances,
        ensures
            r == self.spec_hit_offset(i as int),
    {
        let g = self.group_stride();
        let s = self.hit_stride();
        proof {
            assert(i * s <= self.num_instances * s) by (nonlinear_arith)
                requires
                    i < self.num_instances,
                    s >= 0,
            ;
            lemma_align_up_bounds(self.handle_size + 16, self.base_alignment as int);
        }
        2 * g + i * s
    }
}

/// `data` followed by zeros up to `width` bytes.
pub open spec fn padded(data: Seq<u8>, width: int) -> Seq<u8> {
    data + Seq::new((width - data.len()) as nat, |k: int| 0u8)
}

/// A device address, or zero where there is none.
pub open spec fn address_or_zero(a: Option<u64>) -> u64 {
    match a {
        Some(v) => v,
        None => 0,
    }
}

/// The mesh has both buffers that its hit record points to.
pub open spec fn mesh_complete(m: DeviceMesh) -> bool {
    &&& DeviceMesh::address_of(m.indices) is Some
    &&& DeviceMesh::address_of(m.normals) is Some
}

/// The payload of the hit record of instance `i`: its group handle, then the
/// index-buffer address, then the normal-buffer address.
pub open spec fn hit_payload(layout: SbtLayout, hit: Seq<u8>, meshes: Seq<DeviceMesh>, i: int) -> Seq<u8> {
    let h = layout.handle_size as int;
    hit.subrange(i * h, i * h + h)
        + le_bytes_u64(address_or_zero(DeviceMesh::address_of(meshes[i].indices)))
        + le_bytes_u64(address_or_zero(DeviceMesh::address_of(meshes[i].normals)))
}

/// The first `count` hit records, each padded to the hit stride.
pub open spec fn records_image(layout: SbtLayout, hit: Seq<u8>, meshes: Seq<DeviceMesh>, count: nat) -> Seq<u8>
    decreases count,
{
    if count == 0 {
        Seq::empty()
    } else {
        records_image(layout, hit, meshes, (count - 1) as nat)
            + padded(hit_payload(layout, hit, meshes, count - 1), layout.spec_hit_stride())
    }
}

/// The bytes of the whole table.
pub open spec fn sbt_image(layout: SbtLayout, raygen: Seq<u8>, miss: Seq<u8>, hit: Seq<u8>, meshes: Seq<DeviceMesh>) -> Seq<u8> {
    padded(raygen, layout.spec_group_stride())
        + padded(miss, layout.spec_group_stride())
        + records_image(layout, hit, meshes, layout.num_instances as nat)
}

/// Each handle buffer holds one handle per group.
pub open spec fn handle_sizes_ok(layout: SbtLayout, raygen: Seq<u8>, miss: Seq<u8>, hit: Seq<u8>) -> bool {
    &&& raygen.len() == layout.handle_size
    &&& miss.len() == layout.handle_size
    &&& hit.len() == layout.num_instances * layout.handle_size
}

/// The error for an incomplete mesh at instance `i`.
pub open spec fn mesh_error(m: DeviceMesh, i: int) -> SbtError {
    if DeviceMesh::address_of(m.indices) is None {
        SbtError::MissingIndexBuffer(i as usize)
    } else {
        SbtError::MissingNormalBuffer(i as usize)
    }
}

/// What assembling the table yields: the first failing check, or the image.
pub open spec fn sbt_outcome(
    layout: SbtLayout,
    raygen: Seq<u8>,
    miss: Seq<u8>,
    hit: Seq<u8>,
    meshes: Seq<DeviceMesh>,
) -> Result<Seq<u8>, SbtError> {
    if !handle_sizes_ok(layout, raygen, miss, hit) {
        Err(SbtError::HandleDataSize)
    } else if meshes.len() != layout.num_instances {
        Err(SbtError::InstanceCountMismatch)
    } else if exists|i: int| 0 <= i < meshes.len() && !mesh_complete(#[trigger] meshes[i]) {
        let i = choose|i: int| 0 <= i < meshes.len() && !mesh_complete(#[trigger] meshes[i])
            && forall|j: int| 0 <= j < i ==> mesh_complete(#[trigger] meshes[j]);
        Err(mesh_error(meshes[i], i))
    } else {
        Ok(sbt_image(layout, raygen, miss, hit, meshes))
    }
}

/// Appends `data` and zero padding up to `width` bytes.
fn push_padded(out: &mut Vec<u8>, data: &Vec<u8>, width: u32)
    requires
        data@.len() <= width,
    ensures
        final(out)@ == old(out)@ + padded(data@, width as int),
{
    let ghost start = old(out)@;
    let mut k: usize = 0;
    while k < data.len()
        invariant
            k <= data@.len() <= width,
            out@ == start + data@.subrange(0, k as int),
        decreases data@.len() - k,
    {
        out.push(data[k]);
        k += 1;
        assert(out@ =~= start + data@.subrange(0, k as int));
    }
    let mut p: u32 = data.len() as u32;
    while p < width
        invariant
            data@.len() <= p <= width,
            out@ == start + data@ + Seq::new((p - data@.len()) as nat, |k: int| 0u8),
        decreases width - p,
    {
        out.push(0u8);
        p += 1;
        assert(out@ =~= start + data@ + Seq::new((p - data@.len()) as nat, |k: int| 0u8));
    }
    assert(out@ =~= start + padded(data@, width as int));
}

/// Finds the first instance whose mesh lacks a buffer its hit record needs.
fn check_meshes(meshes: &Vec<DeviceMesh>) -> (r: Result<(), SbtError>)
    ensures
        r is Ok <==> forall|i: int| 0 <= i < meshes@.len() ==> mesh_complete(#[trigger] meshes@[i]),
        r matches Err(e) ==> exists|i: int|
            0 <= i < meshes@.len() && !mesh_complete(#[trigger] meshes@[i])
                && (forall|j: int| 0 <= j < i ==> mesh_complete(#[trigger] meshes@[j]))
                && e == mesh_error(meshes@[i], i),
{
    let mut i: usize = 0;
    while i < meshes.len()
        invariant
            i <= meshes@.len(),
            forall|j: int| 0 <= j < i ==> mesh_complete(#[trigger] meshes@[j]),
        decreases meshes@.len() - i,
    {
        let m = &meshes[i];
        if m.indices_device_address().is_none() {
            return Err(SbtError::MissingIndexBuffer(i));
        }
        if m.normals_device_address().is_none() {
            return Err(SbtError::MissingNormalBuffer(i));
        }
        i += 1;
    }
    Ok(())
}

/// The first incomplete mesh is unique, so the chosen one is it.
proof fn lemma_first_incomplete(meshes: Seq<DeviceMesh>, i: int)
    requires
        0 <= i < meshes.len(),
        !mesh_complete(meshes[i]),
        forall|j: int| 0 <= j < i ==> mesh_complete(#[trigger] meshes[j]),
    ensures
        (choose|k: int| 0 <= k < meshes.len() && !mesh_complete(#[trigger] meshes[k])
            && forall|j: int| 0 <= j < k ==> mesh_complete(#[trigger] meshes[j])) == i,
{
    let k = choose|k: int| 0 <= k < meshes.len() && !mesh_complete(#[trigger] meshes[k])
        && forall|j: int| 0 <= j < k ==> mesh_complete(#[trigger] meshes[j]);
    assert(0 <= k < meshes.len() && !mesh_complete(meshes[k]) && forall|j: int| 0 <= j < k ==> mesh_complete(#[trigger] meshes[j]));
    if k < i {
        assert(mesh_complete(meshes[k]));
    } else if k > i {
        assert(mesh_complete(meshes[i]));
    }
}

/// Assembles the binding table: the ray-generation handle, the miss handle,
/// then for each instance its hit-group handle followed by the device
/// addresses of its mesh's index and normal buffers (little-endian), each
/// record padded to its aligned stride.
pub fn assemble_sbt(
    layout: &SbtLayout,
    raygen: &Vec<u8>,
    miss: &Vec<u8>,
    hit: &Vec<u8>,
    meshes: &Vec<DeviceMesh>,
) -> (r: Result<Vec<u8>, SbtError>)
    requires
        layout.wf(),
    ensures
        r matches Ok(t) ==> sbt_outcome(*layout, raygen@, miss@, hit@, meshes@) == Ok::<Seq<u8>, SbtError>(t@),
        r matches Err(e) ==> sbt_outcome(*layout, raygen@, miss@, hit@, meshes@) == Err::<Seq<u8>, SbtError>(e),
{
    let h = layout.handle_size;
    let n = layout.num_instances;
    proof {
        assert(n * h <= 0xffff_ffffu128 * 0xffff_ffffu128) by (nonlinear_arith)
            requires
                n <= 0xffff_ffffu128,
                h <= 0xffff_ffffu128,
        ;
    }
    let hit_len = hit.len();
    if raygen.len() as u64 != h as u64 || miss.len() as u64 != h as u64
        || hit.len() as u128 != (n as u128) * (h as u128) {
        return Err(SbtError::HandleDataSize);
    }
    if meshes.len() as u64 != n as u64 {
        return Err(SbtError::InstanceCountMismatch);
    }
    match check_meshes(meshes) {
        Err(e) => {
            proof {
                let i = choose|i: int|
                    0 <= i < meshes@.len() && !mesh_complete(#[trigger] meshes@[i])
                        && (forall|j: int| 0 <= j < i ==> mesh_complete(#[trigger] meshes@[j]))
                        && e == mesh_error(meshes@[i], i);
                lemma_first_incomplete(meshes@, i);
            }
            return Err(e);
        }
        Ok(()) => {}
    }
    let g = layout.group_stride();
    let s = layout.hit_stride();
    proof {
        lemma_align_up_bounds(h as int, layout.base_alignment as int);
        lemma_align_up_bounds(h + 16, layout.base_alignment as int);
    }
    let mut out: Vec<u8> = Vec::new();
    push_padded(&mut out, raygen, g);
    push_padded(&mut out, miss, g);
    let ghost prefix = padded(raygen@, g as int) + padded(miss@, g as int);
    assert(out@ =~= prefix + records_image(*layout, hit@, meshes@, 0));
    let mut i: u32 = 0;
    while i < n
        invariant
            layout.wf(),
            n == layout.num_instances,
            h == layout.handle_size,
            s == layout.spec_hit_stride(),
            h + 16 <= s,
            i <= n,
            hit@.len() == n * h,
            hit_len == hit@.len(),
            meshes@.len() == n,
            forall|j: int| 0 <= j < meshes@.len() ==> mesh_complete(#[trigger] meshes@[j]),
            out@ == prefix + records_image(*layout, hit@, meshes@, i as nat),
        decreases n - i,
    {
        let mut payload: Vec<u8> = Vec::new();
        proof {
            assert(i * h + h <= n * h) by (nonlinear_arith)
                requires
                    i < n,
            ;
        }
        let base: usize = i as usize * h as usize;
        let mut k: usize = 0;
        while k < h as usize
            invariant
                base == i * h,
                base + h <= hit@.len(),
                hit_len == hit@.len(),
                k <= h,
                payload@ == hit@.subrange(base as int, base + k),
            decreases h - k,
        {
            payload.push(hit[base + k]);
            k += 1;
            assert(payload@ =~= hit@.subrange(base as int, base + k));
        }
        let m = &meshes[i as usize];
        let index_address = match m.indices_device_address() {
            Some(a) => a,
            None => 0,
        };
        let normal_address = match m.normals_device_address() {
            Some(a) => a,
            None => 0,
        };
        push_le_u64(&mut payload, index_address);
        push_le_u64(&mut payload, normal_address);
        assert(payload@ =~= hit_payload(*layout, hit@, meshes@, i as int));
        push_padded(&mut out, &payload, s);
        i += 1;
        assert(out@ =~= prefix + records_image(*layout, hit@, meshes@, i as nat));
    }
    assert(out@ =~= sbt_image(*layout, raygen@, miss@, hit@, meshes@));
    Ok(out)
}

/// Padding never shortens data that fits the width.
proof fn lemma_padded_len(data: Seq<u8>, width: int)
    requires
        data.len() <= width,
    ensures
        padded(data, width).len() == width,
        forall|k: int| 0 <= k < data.len() ==> #[trigger] padded(data, width)[k] == data[k],
{
}

/// Each hit payload is a handle and two addresses long.
proof fn lemma_payload_len(layout: SbtLayout, hit: Seq<u8>, meshes: Seq<DeviceMesh>, i: int)
    requires
        layout.wf(),
        hit.len() == layout.num_instances * layout.handle_size,
        0 <= i < layout.num_instances,
    ensures
        hit_payload(layout, hit, meshes, i).len() == layout.handle_size + 16,
        layout.handle_size + 16 <= layout.spec_hit_stride(),
{
    let h = layout.handle_size as int;
    let n = layout.num_instances as int;
    assert(i * h + h <= n * h) by (nonlinear_arith)
        requires
            i < n,
            h >= 0,
    ;
    assert(0 <= i * h) by (nonlinear_arith)
        requires
            i >= 0,
            h >= 0,
    ;
    lemma_align_up_bounds(h + 16, layout.base_alignment as int);
}

/// The first `count` records take `count` hit strides.
proof fn lemma_records_len(layout: SbtLayout, hit: Seq<u8>, meshes: Seq<DeviceMesh>, count: nat)
    requires
        layout.wf(),
        hit.len() == layout.num_instances * layout.handle_size,
        count <= layout.num_instances,
    ensures
        records_image(layout, hit, meshes, count).len() == count * layout.spec_hit_stride(),
    decreases count,
{
    if count > 0 {
        let s = layout.spec_hit_stride();
        let prev = records_image(layout, hit, meshes, (count - 1) as nat);
        let last = padded(hit_payload(layout, hit, meshes, count - 1), s);
        lemma_records_len(layout, hit, meshes, (count - 1) as nat);
        lemma_payload_len(layout, hit, meshes, count - 1);
        lemma_padded_len(hit_payload(layout, hit, meshes, count - 1), s);
        let c1 = (count - 1) as nat;
        assert(records_image(layout, hit, meshes, count) == prev + last);
        assert(prev.len() == c1 * s);
        assert(c1 * s + s == count * s) by (nonlinear_arith)
            requires
                c1 + 1 == count,
        ;
        assert((prev + last).len() == prev.len() + last.len());
        assert(last.len() == s);
    } else {
        assert(records_image(layout, hit, meshes, count).len() == 0);
        assert(count * layout.spec_hit_stride() == 0);
    }
}

/// Byte `k` of record `i` sits at `i` strides plus `k`.
proof fn lemma_record_byte(layout: SbtLayout, hit: Seq<u8>, meshes: Seq<DeviceMesh>, count: nat, i: int, k: int)
    requires
        layout.wf(),
        hit.len() == layout.num_instances * layout.handle_size,
        count <= layout.num_instances,
        0 <= i < count,
        0 <= k < layout.spec_hit_stride(),
    ensures
        records_image(layout, hit, meshes, count)[i * layout.spec_hit_stride() + k]
            == padded(hit_payload(layout, hit, meshes, i), layout.spec_hit_stride())[k],
    decreases count,
{
    let s = layout.spec_hit_stride();
    lemma_records_len(layout, hit, meshes, (count - 1) as nat);
    if i < count - 1 {
        lemma_record_byte(layout, hit, meshes, (count - 1) as nat, i, k);
        assert(i * s + k < (count - 1) * s) by (nonlinear_arith)
            requires
                0 <= i,
                i + 1 <= count - 1,
                0 <= k < s,
        ;
        assert(0 <= i * s) by (nonlinear_arith)
            requires
                i >= 0,
                s >= 0,
        ;
    } else {
        lemma_payload_len(layout, hit, meshes, i);
        lemma_padded_len(hit_payload(layout, hit, meshes, i), s);
    }
}

/// The table is exactly as large as the closed form `2 * align(handle_size)
/// + N * align(handle_size + 16)` for every instance count; with no
/// instances the table is the two padded group records alone.
pub proof fn lemma_sbt_size(
    layout: SbtLayout,
    raygen: Seq<u8>,
    miss: Seq<u8>,
    hit: Seq<u8>,
    meshes: Seq<DeviceMesh>,
)
    requires
        layout.wf(),
    ensures
        sbt_outcome(layout, raygen, miss, hit, meshes) matches Ok(t) ==> t.len() == 2 * align_up(
            layout.handle_size as int,
            layout.base_alignment as int,
        ) + layout.num_instances * align_up(layout.handle_size + 16, layout.base_alignment as int),
        layout.num_instances == 0 && handle_sizes_ok(layout, raygen, miss, hit) && meshes.len() == 0
            ==> sbt_outcome(layout, raygen, miss, hit, meshes) == Ok::<Seq<u8>, SbtError>(
            padded(raygen, layout.spec_group_stride()) + padded(miss, layout.spec_group_stride()),
        ),
{
    lemma_align_up_bounds(layout.handle_size as int, layout.base_alignment as int);
    if sbt_outcome(layout, raygen, miss, hit, meshes) is Ok {
        lemma_records_len(layout, hit, meshes, layout.num_instances as nat);
    }
    if layout.num_instances == 0 && handle_sizes_ok(layout, raygen, miss, hit) && meshes.len() == 0 {
        assert(padded(raygen, layout.spec_group_stride()) + padded(miss, layout.spec_group_stride())
            =~= sbt_image(layout, raygen, miss, hit, meshes));
    }
}

/// Reading the table back at the computed offsets yields what was written:
/// the ray-generation and miss handles at the starts of their records, and
/// for every instance its hit handle, then its index-buffer address, then its
/// normal-buffer address; each record ends before the next one starts.
pub proof fn lemma_sbt_round_trip(
    layout: SbtLayout,
    raygen: Seq<u8>,
    miss: Seq<u8>,
    hit: Seq<u8>,
    meshes: Seq<DeviceMesh>,
    table: Seq<u8>,
)
    requires
        layout.wf(),
        sbt_outcome(layout, raygen, miss, hit, meshes) == Ok::<Seq<u8>, SbtError>(table),
    ensures
        table.subrange(0, layout.handle_size as int) == raygen,
        table.subrange(layout.spec_group_stride(), layout.spec_group_stride() + layout.handle_size) == miss,
        forall|i: int| 0 <= i < layout.num_instances ==> {
            let off = #[trigger] layout.spec_hit_offset(i);
            let h = layout.handle_size as int;
            &&& table.subrange(off, off + h) == hit.subrange(i * h, i * h + h)
            &&& DeviceMesh::address_of(meshes[i].indices) matches Some(a)
                && table.subrange(off + h, off + h + 8) == le_bytes_u64(a)
            &&& DeviceMesh::address_of(meshes[i].normals) matches Some(a)
                && table.subrange(off + h + 8, off + h + 16) == le_bytes_u64(a)
            &&& off + h + 16 <= layout.spec_hit_offset(i + 1)
        },
{
    let h = layout.handle_size as int;
    let g = layout.spec_group_stride();
    let s = layout.spec_hit_stride();
    let n = layout.num_instances as int;
    lemma_align_up_bounds(h, layout.base_alignment as int);
    lemma_padded_len(raygen, g);
    lemma_padded_len(miss, g);
    let rec = records_image(layout, hit, meshes, n as nat);
    let pre = padded(raygen, g) + padded(miss, g);
    assert(handle_sizes_ok(layout, raygen, miss, hit));
    assert(table == pre + rec);
    assert(pre.len() == 2 * g);
    lemma_records_len(layout, hit, meshes, n as nat);
    assert(table.subrange(0, h) =~= raygen);
    assert(table.subrange(g, g + h) =~= miss);
    assert(meshes.len() == n);
    assert(forall|j: int| 0 <= j < meshes.len() ==> mesh_complete(#[trigger] meshes[j]));
    assert forall|i: int| 0 <= i < layout.num_instances implies {
        let off = #[trigger] layout.spec_hit_offset(i);
        &&& table.subrange(off, off + h) == hit.subrange(i * h, i * h + h)
        &&& DeviceMesh::address_of(meshes[i].indices) matches Some(a)
            && table.subrange(off + h, off + h + 8) == le_bytes_u64(a)
        &&& DeviceMesh::address_of(meshes[i].normals) matches Some(a)
            && table.subrange(off + h + 8, off + h + 16) == le_bytes_u64(a)
        &&& off + h + 16 <= layout.spec_hit_offset(i + 1)
    } by {
        lemma_hit_record_read(layout, raygen, miss, hit, meshes, table, i);
    }
}

/// The hit record of instance `i` holds its payload, within the table.
proof fn lemma_hit_record_read(
    layout: SbtLayout,
    raygen: Seq<u8>,
    miss: Seq<u8>,
    hit: Seq<u8>,
    meshes: Seq<DeviceMesh>,
    table: Seq<u8>,
    i: int,
)
    requires
        layout.wf(),
        handle_sizes_ok(layout, raygen, miss, hit),
        meshes.len() == layout.num_instances,
        forall|j: int| 0 <= j < meshes.len() ==> mesh_complete(#[trigger] meshes[j]),
        table == sbt_image(layout, raygen, miss, hit, meshes),
        0 <= i < layout.num_instances,
    ensures
        ({
            let off = layout.spec_hit_offset(i);
            let h = layout.handle_size as int;
            &&& table.subrange(off, off + h) == hit.subrange(i * h, i * h + h)
            &&& DeviceMesh::address_of(meshes[i].indices) matches Some(a)
                && table.subrange(off + h, off + h + 8) == le_bytes_u64(a)
            &&& DeviceMesh::address_of(meshes[i].normals) matches Some(a)
                && table.subrange(off + h + 8, off + h + 16) == le_bytes_u64(a)
            &&& off + h + 16 <= layout.spec_hit_offset(i + 1)
        }),
{
    let h = layout.handle_size as int;
    let g = layout.spec_group_stride();
    let s = layout.spec_hit_stride();
    let n = layout.num_instances as int;
    let off = layout.spec_hit_offset(i);
    let p = hit_payload(layout, hit, meshes, i);
    let rec = records_image(layout, hit, meshes, n as nat);
    let pre = padded(raygen, g) + padded(miss, g);
    lemma_align_up_bounds(h, layout.base_alignment as int);
    lemma_padded_len(raygen, g);
    lemma_padded_len(miss, g);
    lemma_records_len(layout, hit, meshes, n as nat);
    lemma_payload_len(layout, hit, meshes, i);
    lemma_padded_len(p, s);
    assert(table == pre + rec);
    assert(i * s + s <= n * s) by (nonlinear_arith)
        requires
            0 <= i < n,
            0 <= s,
    ;
    assert(0 <= i * s) by (nonlinear_arith)
        requires
            0 <= i,
            0 <= s,
    ;
    assert forall|k: int| 0 <= k < h + 16 implies #[trigger] table[off + k] == p[k] by {
        lemma_record_byte(layout, hit, meshes, n as nat, i, k);
        assert(off + k == pre.len() + (i * s + k));
    }
    let ia = address_or_zero(DeviceMesh::address_of(meshes[i].indices));
    let na = address_or_zero(DeviceMesh::address_of(meshes[i].normals));
    assert(mesh_complete(meshes[i]));
    assert(table.subrange(off, off + h) =~= hit.subrange(i * h, i * h + h)) by {
        assert forall|k: int| 0 <= k < h implies #[trigger] table.subrange(off, off + h)[k] == hit.subrange(i * h, i * h + h)[k] by {
            assert(table[off + k] == p[k]);
        }
    }
    assert(table.subrange(off + h, off + h + 8) =~= le_bytes_u64(ia)) by {
        assert forall|k: int| 0 <= k < 8 implies #[trigger] table.subrange(off + h, off + h + 8)[k] == le_bytes_u64(ia)[k] by {
            assert(table[off + (h + k)] == p[h + k]);
        }
    }
    assert(table.subrange(off + h + 8, off + h + 16) =~= le_bytes_u64(na)) by {
        assert forall|k: int| 0 <= k < 8 implies #[trigger] table.subrange(off + h + 8, off + h + 16)[k] == le_bytes_u64(na)[k] by {
            assert(table[off + (h + 8 + k)] == p[h + 8 + k]);
        }
    }
    assert(off + s == layout.spec_hit_offset(i + 1)) by (nonlinear_arith)
        requires
            off == 2 * g + i * s,
            layout.spec_hit_offset(i + 1) == 2 * g + (i + 1) * s,
    ;
}

/// A device-address range that a trace-rays dispatch reads records from.
#[derive(Clone, Copy, Debug, PartialEq, Eq, Structural)]
pub struct StridedRegion {
    pub device_address: u64,
    pub stride: u64,
    pub size: u64,
}

/// The four regions of a dispatch; the callable region is empty.
#[derive(Clone, Copy, Debug, PartialEq, Eq, Structural)]
pub struct SbtRegions {
    pub raygen: StridedRegion,
    pub miss: StridedRegion,
    pub hit: StridedRegion,
    pub callable: StridedRegion,
}

impl SbtLayout {
    /// The regions of a table at `base`, from the same strides the table was
    /// assembled with.
    pub open spec fn spec_regions(&self, base: u64) -> SbtRegions {
        let g = self.spec_group_stride();
        let s = self.spec_hit_stride();
        SbtRegions {
            raygen: StridedRegion { device_address: base, stride: g as u64, size: g as u64 },
            miss: StridedRegion { device_address: (base + g) as u64, stride: g as u64, size: g as u64 },
            hit: StridedRegion {
                device_address: (base + 2 * g) as u64,
                stride: s as u64,
                size: (self.num_instances * s) as u64,
            },
            callable: StridedRegion { device_address: 0, stride: 0, size: 0 },
        }
    }

    /// The dispatch regions of the table whose buffer starts at
    /// `sbt_address`; record `i` of the hit region is the hit record of
    /// instance `i`.
    pub fn regions(&self, sbt_address: u64) -> (r: SbtRegions)
        requires
            self.wf(),
            sbt_address + self.spec_table_size() <= u64::MAX,
        ensures
            r == self.spec_regions(sbt_address),
            r.raygen.size + r.miss.size + r.hit.size == self.spec_table_size(),
            forall|i: int| 0 <= i < self.num_instances ==>
                r.hit.device_address + i * r.hit.stride == sbt_address + #[trigger] self.spec_hit_offset(i),
    {
        let g = self.group_stride() as u64;
        let s = self.hit_stride() as u64;
        let size = self.table_size();
        proof {
            lemma_align_up_bounds(self.handle_size + 16, self.base_alignment as int);
            assert(self.num_instances * s <= self.spec_table_size());
        }
        SbtRegions {
            raygen: StridedRegion { device_address: sbt_address, stride: g, size: g },
            miss: StridedRegion { device_address: sbt_address + g, stride: g, size: g },
            hit: StridedRegion {
                device_address: sbt_address + 2 * g,
                stride: s,
                size: self.num_instances as u64 * s,
            },
            callable: StridedRegion { device_address: 0, stride: 0, size: 0 },
        }
    }
}

} // verus!

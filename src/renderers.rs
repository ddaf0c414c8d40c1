//! The ray-tracing renderer's decisions: which shader groups its pipeline
//! has, what its binding table holds, when it is ready to draw and what a
//! draw dispatches.

use vstd::prelude::*;
use crate::acceleration_structure::{lemma_instance_offsets, low_24, TopLevelAccelerationStructure};
use crate::device_mesh::DeviceMesh;
use crate::bytes::le_bytes_u64;
use crate::align::align_up;
use crate::sbt::{assemble_sbt, lemma_sbt_round_trip, lemma_sbt_size, padded, sbt_outcome, RayTracingProperties, SbtError, SbtLayout, SbtRegions};

verus! {

/// Binding-table offset step per instance used when building the top level.
/// Instance `i` then carries record offset `2 * i`, while its hit record is
/// the `i`-th of the table; whether the offset should instead equal the hit
/// record's index is left open, so nothing here ties the two together.
pub const NUM_ATTRIBUTES: u32 = 2;

/// Index of the ray-generation shader among the pipeline's stages.
pub const RAYGEN_SHADER: u32 = 0;

/// Index of the miss shader.
pub const MISS_SHADER: u32 = 1;

/// Index of the closest-hit shader.
pub const CLOSEST_HIT_SHADER: u32 = 2;

#[derive(Debug, Copy, Clone, Eq, PartialEq, Structural)]
pub enum RenderStyle {
    Normal,
    Wireframe,
}

/// One shader group of the ray-tracing pipeline.
#[derive(Debug, Copy, Clone, Eq, PartialEq, Structural)]
pub enum ShaderGroup {
    /// A group running one general shader (ray generation or miss).
    General(u32),
    /// A triangle hit group with the given closest-hit shader.
    TrianglesHitGroup(u32),
}

/// The groups of a pipeline for `n` instances: ray generation, miss, then
/// one hit group per instance.
pub open spec fn spec_shader_groups(n: nat) -> Seq<ShaderGroup> {
    seq![ShaderGroup::General(RAYGEN_SHADER), ShaderGroup::General(MISS_SHADER)]
        + Seq::new(n, |i: int| ShaderGroup::TrianglesHitGroup(CLOSEST_HIT_SHADER))
}

pub fn shader_groups(num_instances: usize) -> (r: Vec<ShaderGroup>)
    ensures
        r@ == spec_shader_groups(num_instances as nat),
{
    let mut groups: Vec<ShaderGroup> = Vec::new();
    groups.push(ShaderGroup::General(RAYGEN_SHADER));
    groups.push(ShaderGroup::General(MISS_SHADER));
    let mut i: usize = 0;
    while i < num_instances
        invariant
            i <= num_instances,
            groups@ == spec_shader_groups(i as nat),
        decreases num_instances - i,
    {
        groups.push(ShaderGroup::TrianglesHitGroup(CLOSEST_HIT_SHADER));
        i += 1;
        assert(groups@ =~= spec_shader_groups(i as nat));
    }
    groups
}

/// Where the renderer stands in its rebuild cycle.
#[derive(Debug, Copy, Clone, Eq, PartialEq, Structural)]
pub enum Phase {
    /// No resolution has been set yet.
    Uninitialized,
    /// Pipeline, binding table and descriptor set exist.
    Ready,
    /// The resolution-dependent resources have been torn down.
    Rebuilding,
}

/// The resolution- and pipeline-dependent resources of a ready renderer.
#[derive(Clone, Debug)]
pub struct FrameResources {
    pub layout: SbtLayout,
    pub sbt_address: u64,
    pub width: u32,
    pub height: u32,
    pub image_views: Vec<u64>,
    pub descriptor_set: u64,
}

impl FrameResources {
    pub open spec fn wf(&self) -> bool {
        &&& self.layout.wf()
        &&& self.sbt_address + self.layout.spec_table_size() <= u64::MAX
    }
}

/// What one frame's trace-rays dispatch binds and reads.
#[derive(Clone, Copy, Debug, PartialEq, Eq, Structural)]
pub struct DrawPlan {
    pub acceleration_structure: u64,
    pub image_view: u64,
    pub descriptor_set: u64,
    pub regions: SbtRegions,
    pub width: u32,
    pub height: u32,
    pub depth: u32,
}

#[derive(Clone, Copy, Debug, PartialEq, Eq, Structural)]
pub enum RebuildError {
    /// The renderer is not between teardown and rebuild.
    NotRebuilding,
    /// The binding table was laid out for another instance count, or the
    /// layout or its address range is unusable.
    LayoutMismatch,
}

/// The ray-tracing renderer's state: the scene's top-level structure and the
/// resources of the current resolution.
#[derive(Clone, Debug)]
pub struct RayTraceState {
    pub toplevel_as: Option<TopLevelAccelerationStructure>,
    pub frame: Option<FrameResources>,
    pub phase: Phase,
}

/// The meshes of the instances, in instance order; none without a scene.
pub open spec fn spec_instance_meshes(t: Option<TopLevelAccelerationStructure>) -> Seq<DeviceMesh> {
    match t {
        Some(t) => Seq::new(t.instances.bottomlevel_as@.len(), |i: int| t.instances.bottomlevel_as@[i].0.mesh),
        None => Seq::empty(),
    }
}

/// The binding table for a scene: its layout and bytes, or why there is none.
pub open spec fn spec_scene_sbt(
    t: Option<TopLevelAccelerationStructure>,
    props: RayTracingProperties,
    raygen: Seq<u8>,
    miss: Seq<u8>,
    hit: Seq<u8>,
) -> Result<(SbtLayout, Seq<u8>), SbtError> {
    let n = spec_instance_meshes(t).len();
    let layout = SbtLayout {
        handle_size: props.shader_group_handle_size,
        base_alignment: props.shader_group_base_alignment,
        num_instances: n as u32,
    };
    if props.shader_group_base_alignment == 0 {
        Err(SbtError::InvalidAlignment)
    } else if n > u32::MAX || !layout.wf() {
        Err(SbtError::TableTooLarge)
    } else {
        match sbt_outcome(layout, raygen, miss, hit, spec_instance_meshes(t)) {
            Ok(bytes) => Ok((layout, bytes)),
            Err(e) => Err(e),
        }
    }
}

impl RayTraceState {
    pub open spec fn wf(&self) -> bool {
        &&& (self.phase == Phase::Ready) <==> self.frame is Some
        &&& self.toplevel_as matches Some(t) ==> t.wf()
        &&& self.frame matches Some(f) ==> f.wf() && f.layout.num_instances == self.spec_num_instances()
    }

    pub open spec fn spec_num_instances(&self) -> nat {
        spec_instance_meshes(self.toplevel_as).len()
    }

    /// A renderer with no scene and no resolution yet.
    pub fn new() -> (r: Self)
        ensures
            r.wf(),
            r.toplevel_as is None,
            r.frame is None,
            r.phase == Phase::Uninitialized,
    {
        RayTraceState { toplevel_as: None, frame: None, phase: Phase::Uninitialized }
    }

    /// Number of instances of the current scene; zero without one.
    pub fn num_instances(&self) -> (r: usize)
        ensures
            r == self.spec_num_instances(),
    {
        match &self.toplevel_as {
            Some(t) => t.num_instances(),
            None => 0,
        }
    }

    /// Installs a new scene. The binding table depends on the instance set,
    /// so the resolution-dependent resources are dropped and must be rebuilt.
    pub fn set_toplevel(&mut self, toplevel_as: TopLevelAccelerationStructure)
        requires
            old(self).wf(),
            toplevel_as.wf(),
        ensures
            final(self).wf(),
            final(self).toplevel_as == Some(toplevel_as),
            final(self).frame is None,
            final(self).phase == (if old(self).phase == Phase::Uninitialized {
                Phase::Uninitialized
            } else {
                Phase::Rebuilding
            }),
    {
        self.toplevel_as = Some(toplevel_as);
        self.frame = None;
        if self.phase != Phase::Uninitialized {
            self.phase = Phase::Rebuilding;
        }
    }

    /// The shader groups of the pipeline for the current scene.
    pub fn shader_groups(&self) -> (r: Vec<ShaderGroup>)
        ensures
            r@ == spec_shader_groups(self.spec_num_instances()),
    {
        shader_groups(self.num_instances())
    }

    /// Teardown before a resize or shader reload: the resolution-dependent
    /// resources are gone, the scene is kept.
    pub fn begin_rebuild(&mut self)
        requires
            old(self).wf(),
        ensures
            final(self).wf(),
            final(self).toplevel_as == old(self).toplevel_as,
            final(self).frame is None,
            final(self).phase == Phase::Rebuilding,
    {
        self.frame = None;
        self.phase = Phase::Rebuilding;
    }

    /// The binding table for the current scene from the new pipeline's
    /// group handles: the ray-generation handle, the miss handle and one hit
    /// handle per instance, with each instance's mesh addresses.
    pub fn assemble_sbt(
        &self,
        props: &RayTracingProperties,
        raygen: &Vec<u8>,
        miss: &Vec<u8>,
        hit: &Vec<u8>,
    ) -> (r: Result<(SbtLayout, Vec<u8>), SbtError>)
        requires
            self.wf(),
        ensures
            r matches Ok((l, t)) ==> spec_scene_sbt(self.toplevel_as, *props, raygen@, miss@, hit@) == Ok::<
                (SbtLayout, Seq<u8>),
                SbtError,
            >((l, t@)),
            r matches Err(e) ==> spec_scene_sbt(self.toplevel_as, *props, raygen@, miss@, hit@) == Err::<
                (SbtLayout, Seq<u8>),
                SbtError,
            >(e),
    {
        let n = self.num_instances();
        if props.shader_group_base_alignment == 0 {
            return Err(SbtError::InvalidAlignment);
        }
        if n > u32::MAX as usize {
            return Err(SbtError::TableTooLarge);
        }
        let layout = match SbtLayout::new(props, n as u32) {
            Ok(l) => l,
            Err(e) => return Err(e),
        };
        let meshes = match &self.toplevel_as {
            Some(t) => t.meshes(),
            None => Vec::new(),
        };
        assert(meshes@ =~= spec_instance_meshes(self.toplevel_as));
        match assemble_sbt(&layout, raygen, miss, hit, &meshes) {
            Ok(bytes) => Ok((layout, bytes)),
            Err(e) => Err(e),
        }
    }

    /// Completes a rebuild with the new resolution's resources.
    pub fn finish_rebuild(&mut self, frame: FrameResources) -> (r: Result<(), RebuildError>)
        requires
            old(self).wf(),
        ensures
            final(self).wf(),
            final(self).toplevel_as == old(self).toplevel_as,
            old(self).phase == Phase::Ready ==> r == Err::<(), RebuildError>(RebuildError::NotRebuilding),
            old(self).phase != Phase::Ready ==> (r is Ok <==> (frame.wf() && frame.layout.num_instances
                == old(self).spec_num_instances())),
            r matches Err(e) ==> *final(self) == *old(self) && (e == RebuildError::NotRebuilding <==> old(
                self,
            ).phase == Phase::Ready),
            r is Ok ==> final(self).frame == Some(frame) && final(self).phase == Phase::Ready,
            old(self).phase == Phase::Rebuilding ==> *final(self) == spec_after_resolution(*old(self), frame),
    {
        if self.phase == Phase::Ready {
            return Err(RebuildError::NotRebuilding);
        }
        let n = self.num_instances();
        if !frame.layout.is_valid() || frame.layout.num_instances as usize != n {
            return Err(RebuildError::LayoutMismatch);
        }
        let size = frame.layout.table_size();
        if frame.sbt_address > u64::MAX - size as u64 {
            return Err(RebuildError::LayoutMismatch);
        }
        self.frame = Some(frame);
        self.phase = Phase::Ready;
        Ok(())
    }

    /// What a draw into swapchain image `swapchain_idx` dispatches. Nothing is
    /// traced without a scene, without resolution resources, with an empty
    /// scene, or for an image that has no view.
    pub fn plan_draw(&self, swapchain_idx: usize) -> (r: Option<DrawPlan>)
        requires
            self.wf(),
        ensures
            r is Some <==> (self.toplevel_as is Some && self.frame is Some && self.spec_num_instances() > 0
                && swapchain_idx < self.frame.unwrap().image_views@.len()),
            r matches Some(p) ==> {
                let f = self.frame.unwrap();
                &&& p.acceleration_structure == self.toplevel_as.unwrap().structure
                &&& p.image_view == f.image_views@[swapchain_idx as int]
                &&& p.descriptor_set == f.descriptor_set
                &&& p.regions == f.layout.spec_regions(f.sbt_address)
                &&& p.width == f.width
                &&& p.height == f.height
                &&& p.depth == 1
            },
    {
        let t = match &self.toplevel_as {
            Some(t) => t,
            None => return None,
        };
        let f = match &self.frame {
            Some(f) => f,
            None => return None,
        };
        if t.num_instances() == 0 || swapchain_idx >= f.image_views.len() {
            return None;
        }
        Some(DrawPlan {
            acceleration_structure: t.structure(),
            image_view: f.image_views[swapchain_idx],
            descriptor_set: f.descriptor_set,
            regions: f.layout.regions(f.sbt_address),
            width: f.width,
            height: f.height,
            depth: 1,
        })
    }
}

/// The state after a resolution change that lands `frame` on `s` once its
/// old resources are torn down: ready with `frame` when the frame fits the
/// scene, still rebuilding otherwise; the scene is kept either way.
pub open spec fn spec_after_resolution(s: RayTraceState, frame: FrameResources) -> RayTraceState {
    if frame.wf() && frame.layout.num_instances == s.spec_num_instances() {
        RayTraceState { toplevel_as: s.toplevel_as, frame: Some(frame), phase: Phase::Ready }
    } else {
        RayTraceState { toplevel_as: s.toplevel_as, frame: None, phase: Phase::Rebuilding }
    }
}

/// Setting the same resolution twice is the same as setting it once: the
/// state after the second change equals the state after the first, and the
/// pipeline's shader groups and the binding table assembled from the same
/// handles are byte for byte those of the first change, because neither
/// change touches the scene.
pub proof fn lemma_set_resolution_idempotent(
    s0: RayTraceState,
    frame: FrameResources,
    props: RayTracingProperties,
    raygen: Seq<u8>,
    miss: Seq<u8>,
    hit: Seq<u8>,
)
    requires
        s0.wf(),
    ensures
        ({
            let s1 = spec_after_resolution(s0, frame);
            let s2 = spec_after_resolution(s1, frame);
            &&& s2 == s1
            &&& spec_scene_sbt(s2.toplevel_as, props, raygen, miss, hit) == spec_scene_sbt(
                s1.toplevel_as,
                props,
                raygen,
                miss,
                hit,
            )
            &&& spec_scene_sbt(s1.toplevel_as, props, raygen, miss, hit) == spec_scene_sbt(
                s0.toplevel_as,
                props,
                raygen,
                miss,
                hit,
            )
            &&& spec_shader_groups(s2.spec_num_instances()) == spec_shader_groups(s1.spec_num_instances())
        }),
{
}

/// Hit record `i` of `table` holds the buffer addresses of the mesh under
/// bottom-level structure `i` of `t`, whose reference instance record `i`
/// carries; that record's binding-table offset is
/// `attributes_per_instance * i`.
pub open spec fn hit_record_of_instance(
    t: TopLevelAccelerationStructure,
    layout: SbtLayout,
    table: Seq<u8>,
    i: int,
) -> bool {
    let off = layout.spec_hit_offset(i);
    let h = layout.handle_size as int;
    let m = t.instances.bottomlevel_as@[i].0.mesh;
    &&& DeviceMesh::address_of(m.indices) matches Some(a) && table.subrange(off + h, off + h + 8) == le_bytes_u64(a)
    &&& DeviceMesh::address_of(m.normals) matches Some(a) && table.subrange(off + h + 8, off + h + 16)
        == le_bytes_u64(a)
    &&& t.instances.records@[i].acceleration_structure_reference == t.instances.bottomlevel_as@[i].0.handle
    &&& low_24(t.instances.records@[i].instance_shader_binding_table_record_offset_and_flags)
        == t.instances.attributes_per_instance * i
}

/// The hit record at position `i` of a scene's binding table belongs to
/// instance `i`: it holds the device addresses of the index and normal
/// buffers of the mesh under bottom-level structure `i`, the structure whose
/// reference the `i`-th instance record carries. The record offset that
/// instance carries is `attributes_per_instance * i`, which equals `i` only
/// when the step is one; this states both and does not equate them.
pub proof fn lemma_hit_records_follow_instances(
    t: TopLevelAccelerationStructure,
    props: RayTracingProperties,
    raygen: Seq<u8>,
    miss: Seq<u8>,
    hit: Seq<u8>,
    layout: SbtLayout,
    table: Seq<u8>,
)
    requires
        t.wf(),
        spec_scene_sbt(Some(t), props, raygen, miss, hit) == Ok::<(SbtLayout, Seq<u8>), SbtError>((layout, table)),
    ensures
        layout.num_instances == t.instances.bottomlevel_as@.len(),
        layout.num_instances == t.instances.records@.len(),
        forall|i: int| 0 <= i < layout.num_instances ==> #[trigger] hit_record_of_instance(t, layout, table, i),
{
    let meshes = spec_instance_meshes(Some(t));
    lemma_sbt_round_trip(layout, raygen, miss, hit, meshes, table);
    lemma_instance_offsets(t.instances);
    assert forall|i: int| 0 <= i < layout.num_instances implies #[trigger] hit_record_of_instance(
        t,
        layout,
        table,
        i,
    ) by {
        assert(meshes[i] == t.instances.bottomlevel_as@[i].0.mesh);
        assert(t.instances.records@[i] == crate::acceleration_structure::spec_instance_record(
            t.instances.bottomlevel_as@[i].0.handle,
            t.instances.bottomlevel_as@[i].1,
            t.instances.attributes_per_instance,
            i,
        ));
    }
}

/// A scene's binding table has one hit record per instance of the scene and
/// is `2 * align(handle_size) + N * align(handle_size + 16)` bytes long; a
/// scene of no instances gives the two padded group records alone.
pub proof fn lemma_scene_sbt_size(
    t: Option<TopLevelAccelerationStructure>,
    props: RayTracingProperties,
    raygen: Seq<u8>,
    miss: Seq<u8>,
    hit: Seq<u8>,
    layout: SbtLayout,
    table: Seq<u8>,
)
    requires
        spec_scene_sbt(t, props, raygen, miss, hit) == Ok::<(SbtLayout, Seq<u8>), SbtError>((layout, table)),
    ensures
        layout.num_instances == spec_instance_meshes(t).len(),
        table.len() == 2 * align_up(
            props.shader_group_handle_size as int,
            props.shader_group_base_alignment as int,
        ) + spec_instance_meshes(t).len() * align_up(
            props.shader_group_handle_size + 16,
            props.shader_group_base_alignment as int,
        ),
        spec_instance_meshes(t).len() == 0 ==> table == padded(raygen, layout.spec_group_stride()) + padded(
            miss,
            layout.spec_group_stride(),
        ),
{
    lemma_sbt_size(layout, raygen, miss, hit, spec_instance_meshes(t));
}

} // verus!

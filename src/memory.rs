//! Choice of a device memory type for a new buffer allocation.

use vstd::prelude::*;

verus! {

/// Memory-property bit: memory local to the device.
pub const MEMORY_PROPERTY_DEVICE_LOCAL: u32 = 0x1;

/// Memory-property bit: memory the host can map.
pub const MEMORY_PROPERTY_HOST_VISIBLE: u32 = 0x2;

/// Memory-property bit: host writes are visible without explicit flushes.
pub const MEMORY_PROPERTY_HOST_COHERENT: u32 = 0x4;

/// The most memory types a device reports.
pub const MAX_MEMORY_TYPES: usize = 32;

/// What the device asks of the memory behind one buffer.
#[derive(Clone, Copy, Debug, PartialEq, Eq, Structural)]
pub struct MemoryRequirements {
    pub size: u64,
    pub alignment: u64,
    /// Bit `i` is set when memory type `i` may back the buffer.
    pub memory_type_bits: u32,
}

/// The memory types of a physical device, in device order: entry `i` holds
/// the property flags of memory type `i`.
#[derive(Clone, Debug)]
pub struct MemoryProperties {
    pub memory_type_flags: Vec<u32>,
}

impl MemoryProperties {
    pub open spec fn wf(&self) -> bool {
        self.memory_type_flags@.len() <= MAX_MEMORY_TYPES
    }
}

/// Memory type `index` is allowed by `type_bits` and carries every flag of
/// `required`.
pub open spec fn memory_type_fits(type_bits: u32, index: int, type_flags: u32, required: u32) -> bool {
    &&& type_bits & (1u32 << (index as u32)) != 0
    &&& type_flags & required == required
}

/// The first memory type, in device order, that fits.
pub open spec fn is_first_fit(req: MemoryRequirements, props: Seq<u32>, required: u32, index: int) -> bool {
    &&& 0 <= index < props.len()
    &&& memory_type_fits(req.memory_type_bits, index, props[index], required)
    &&& forall|j: int| 0 <= j < index ==> !memory_type_fits(req.memory_type_bits, j, #[trigger] props[j], required)
}

/// No memory type fits.
pub open spec fn no_fit(req: MemoryRequirements, props: Seq<u32>, required: u32) -> bool {
    forall|j: int| 0 <= j < props.len() ==> !memory_type_fits(req.memory_type_bits, j, #[trigger] props[j], required)
}

/// Scans the memory types in device order and returns the index of the first
/// one that the requirements allow and whose flags include all of `flags`.
pub fn find_memorytype_index(
    memory_req: &MemoryRequirements,
    memory_prop: &MemoryProperties,
    flags: u32,
) -> (r: Option<u32>)
    requires
        memory_prop.wf(),
    ensures
        r matches Some(idx) ==> is_first_fit(*memory_req, memory_prop.memory_type_flags@, flags, idx as int),
        r is None <==> no_fit(*memory_req, memory_prop.memory_type_flags@, flags),
{
    let props = &memory_prop.memory_type_flags;
    let mut i: usize = 0;
    while i < props.len()
        invariant
            props@ == memory_prop.memory_type_flags@,
            i <= props@.len() <= MAX_MEMORY_TYPES,
            forall|j: int| 0 <= j < i ==> !memory_type_fits(memory_req.memory_type_bits, j, #[trigger] props@[j], flags),
        decreases props@.len() - i,
    {
        let index = i as u32;
        if memory_req.memory_type_bits & (1u32 << index) != 0 && props[i] & flags == flags {
            assert(memory_type_fits(memory_req.memory_type_bits, index as int, props@[index as int], flags));
            return Some(index);
        }
        i += 1;
    }
    None
}

/// The property flags a new allocation asks for: mappable, coherent memory
/// when host data is copied in at creation, device-local memory otherwise.
pub open spec fn spec_allocation_flags(host_payload: bool) -> u32 {
    if host_payload {
        MEMORY_PROPERTY_HOST_VISIBLE | MEMORY_PROPERTY_HOST_COHERENT
    } else {
        MEMORY_PROPERTY_DEVICE_LOCAL
    }
}

pub fn allocation_flags(host_payload: bool) -> (r: u32)
    ensures
        r == spec_allocation_flags(host_payload),
{
    if host_payload {
        MEMORY_PROPERTY_HOST_VISIBLE | MEMORY_PROPERTY_HOST_COHERENT
    } else {
        MEMORY_PROPERTY_DEVICE_LOCAL
    }
}

/// How one buffer's memory is to be allocated.
#[derive(Clone, Copy, Debug, PartialEq, Eq, Structural)]
pub struct AllocationPlan {
    pub memory_type_index: u32,
    pub allocation_size: u64,
    /// The memory is mapped once and the host payload copied in.
    pub upload: bool,
}

#[derive(Clone, Copy, Debug, PartialEq, Eq, Structural)]
pub enum MemoryError {
    /// No memory type satisfies the buffer's requirements.
    NoSuitableMemoryType,
}

/// Picks the memory for a buffer with the given requirements: one fresh
/// allocation of `req.size` bytes in the first fitting memory type.
pub fn plan_allocation(
    req: &MemoryRequirements,
    props: &MemoryProperties,
    host_payload: bool,
) -> (r: Result<AllocationPlan, MemoryError>)
    requires
        props.wf(),
    ensures
        r is Err <==> no_fit(*req, props.memory_type_flags@, spec_allocation_flags(host_payload)),
        r matches Err(e) ==> e == MemoryError::NoSuitableMemoryType,
        r matches Ok(plan) ==> {
            &&& is_first_fit(*req, props.memory_type_flags@, spec_allocation_flags(host_payload), plan.memory_type_index as int)
            &&& plan.allocation_size == req.size
            &&& plan.upload == host_payload
        },
{
    let flags = allocation_flags(host_payload);
    match find_memorytype_index(req, props, flags) {
        Some(index) => Ok(AllocationPlan { memory_type_index: index, allocation_size: req.size, upload: host_payload }),
        None => Err(MemoryError::NoSuitableMemoryType),
    }
}

} // verus!

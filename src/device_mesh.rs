//! A mesh as the device sees it: one buffer per vertex attribute and one for
//! the triangle indices.

use vstd::prelude::*;

verus! {

/// Buffer usage bit: storage buffer.
pub const BUFFER_USAGE_STORAGE_BUFFER: u32 = 0x20;

/// Buffer usage bit: index buffer.
pub const BUFFER_USAGE_INDEX_BUFFER: u32 = 0x40;

/// Buffer usage bit: vertex buffer.
pub const BUFFER_USAGE_VERTEX_BUFFER: u32 = 0x80;

/// Buffer usage bit: the buffer has a device address.
pub const BUFFER_USAGE_SHADER_DEVICE_ADDRESS: u32 = 0x2_0000;

/// Buffer usage bit: read-only input of an acceleration-structure build.
pub const BUFFER_USAGE_AS_BUILD_INPUT: u32 = 0x8_0000;

/// Buffer usage bit: backing storage of an acceleration structure.
pub const BUFFER_USAGE_AS_STORAGE: u32 = 0x10_0000;

/// Bytes of one vertex position or normal: three 32-bit floats.
pub const VEC3_BYTES: u64 = 12;

/// Bytes of one triangle: three 32-bit vertex indices.
pub const TRIANGLE_BYTES: u64 = 12;

/// A device buffer as recorded on the host: its handle, size, usage and,
/// when the usage allows one, its device address.
#[derive(Clone, Copy, Debug, PartialEq, Eq, Structural)]
pub struct Buffer {
    pub buffer: u64,
    pub size: u64,
    pub usage: u32,
    pub address: u64,
}

impl Buffer {
    pub open spec fn has_device_address(&self) -> bool {
        self.usage & BUFFER_USAGE_SHADER_DEVICE_ADDRESS != 0
    }

    pub open spec fn spec_device_address(&self) -> Option<u64> {
        if self.has_device_address() {
            Some(self.address)
        } else {
            None
        }
    }

    /// The device address, which exists only for buffers created with the
    /// device-address usage.
    pub fn device_address(&self) -> (r: Option<u64>)
        ensures
            r == self.spec_device_address(),
    {
        if self.usage & BUFFER_USAGE_SHADER_DEVICE_ADDRESS != 0 {
            Some(self.address)
        } else {
            None
        }
    }

    pub fn buffer(&self) -> (r: u64)
        ensures
            r == self.buffer,
    {
        self.buffer
    }
}

#[derive(Debug, Copy, Clone, Hash, Eq, PartialEq, Structural)]
pub enum AttributeType {
    Normals,
    Position,
    Index,
}

/// Size in bytes of the buffer that holds one attribute of a mesh.
pub open spec fn spec_attribute_size(attribute: AttributeType, num_vertices: u32, num_triangles: u32) -> int {
    match attribute {
        AttributeType::Index => TRIANGLE_BYTES * num_triangles,
        _ => VEC3_BYTES * num_vertices,
    }
}

pub fn attribute_size(attribute: AttributeType, num_vertices: u32, num_triangles: u32) -> (r: u64)
    ensures
        r == spec_attribute_size(attribute, num_vertices, num_triangles),
{
    match attribute {
        AttributeType::Index => TRIANGLE_BYTES * num_triangles as u64,
        _ => VEC3_BYTES * num_vertices as u64,
    }
}

/// Usage of the buffer that holds one attribute: vertex or index data, and
/// for ray tracing also a device address and use as build input.
pub open spec fn spec_attribute_usage(attribute: AttributeType, with_ray_tracing: bool) -> u32 {
    let base = match attribute {
        AttributeType::Index => BUFFER_USAGE_INDEX_BUFFER,
        _ => BUFFER_USAGE_VERTEX_BUFFER,
    };
    if with_ray_tracing {
        base | BUFFER_USAGE_SHADER_DEVICE_ADDRESS | BUFFER_USAGE_AS_BUILD_INPUT
    } else {
        base
    }
}

pub fn attribute_usage(attribute: AttributeType, with_ray_tracing: bool) -> (r: u32)
    ensures
        r == spec_attribute_usage(attribute, with_ray_tracing),
{
    let base = match attribute {
        AttributeType::Index => BUFFER_USAGE_INDEX_BUFFER,
        _ => BUFFER_USAGE_VERTEX_BUFFER,
    };
    if with_ray_tracing {
        base | BUFFER_USAGE_SHADER_DEVICE_ADDRESS | BUFFER_USAGE_AS_BUILD_INPUT
    } else {
        base
    }
}

#[derive(Clone, Copy, Debug, PartialEq, Eq, Structural)]
pub enum DeviceMeshError {
    /// The buffer of this attribute does not hold one element per vertex
    /// (or per triangle, for indices).
    BufferSizeMismatch(AttributeType),
    /// The buffer of this attribute was created with another usage than the
    /// attribute needs.
    BufferUsageMismatch(AttributeType),
}

/// The per-mesh set of device buffers: positions and indices, and normals
/// where the mesh has them.
#[derive(Clone, Copy, Debug, PartialEq, Eq, Structural)]
pub struct DeviceMesh {
    pub num_vertices: u32,
    pub num_triangles: u32,
    pub position: Option<Buffer>,
    pub indices: Option<Buffer>,
    pub normals: Option<Buffer>,
}

/// A present buffer holds exactly the bytes of its attribute.
pub open spec fn buffer_fits(b: Option<Buffer>, attribute: AttributeType, num_vertices: u32, num_triangles: u32) -> bool {
    b matches Some(buf) ==> buf.size == spec_attribute_size(attribute, num_vertices, num_triangles)
}

/// A present buffer has exactly the usage of its attribute.
pub open spec fn buffer_usage_fits(b: Option<Buffer>, attribute: AttributeType, with_ray_tracing: bool) -> bool {
    b matches Some(buf) ==> buf.usage == spec_attribute_usage(attribute, with_ray_tracing)
}

/// The first failing check of a mesh's buffers, in the order positions,
/// normals, indices, each buffer's size before its usage.
pub open spec fn spec_device_mesh(
    num_vertices: u32,
    num_triangles: u32,
    position: Buffer,
    indices: Buffer,
    normals: Option<Buffer>,
    with_ray_tracing: bool,
) -> Result<DeviceMesh, DeviceMeshError> {
    if !buffer_fits(Some(position), AttributeType::Position, num_vertices, num_triangles) {
        Err(DeviceMeshError::BufferSizeMismatch(AttributeType::Position))
    } else if !buffer_usage_fits(Some(position), AttributeType::Position, with_ray_tracing) {
        Err(DeviceMeshError::BufferUsageMismatch(AttributeType::Position))
    } else if !buffer_fits(normals, AttributeType::Normals, num_vertices, num_triangles) {
        Err(DeviceMeshError::BufferSizeMismatch(AttributeType::Normals))
    } else if !buffer_usage_fits(normals, AttributeType::Normals, with_ray_tracing) {
        Err(DeviceMeshError::BufferUsageMismatch(AttributeType::Normals))
    } else if !buffer_fits(Some(indices), AttributeType::Index, num_vertices, num_triangles) {
        Err(DeviceMeshError::BufferSizeMismatch(AttributeType::Index))
    } else if !buffer_usage_fits(Some(indices), AttributeType::Index, with_ray_tracing) {
        Err(DeviceMeshError::BufferUsageMismatch(AttributeType::Index))
    } else {
        Ok(DeviceMesh { num_vertices, num_triangles, position: Some(position), indices: Some(indices), normals })
    }
}

impl DeviceMesh {
    pub open spec fn wf(&self) -> bool {
        &&& buffer_fits(self.position, AttributeType::Position, self.num_vertices, self.num_triangles)
        &&& buffer_fits(self.normals, AttributeType::Normals, self.num_vertices, self.num_triangles)
        &&& buffer_fits(self.indices, AttributeType::Index, self.num_vertices, self.num_triangles)
    }

    /// Gathers the uploaded buffers of one mesh; each must be exactly as
    /// large as its attribute and carry the usage the attribute needs, with or
    /// without ray tracing.
    pub fn new(
        num_vertices: u32,
        num_triangles: u32,
        position: Buffer,
        indices: Buffer,
        normals: Option<Buffer>,
        with_ray_tracing: bool,
    ) -> (r: Result<DeviceMesh, DeviceMeshError>)
        ensures
            r == spec_device_mesh(num_vertices, num_triangles, position, indices, normals, with_ray_tracing),
            r matches Ok(m) ==> m.wf(),
    {
        if position.size != attribute_size(AttributeType::Position, num_vertices, num_triangles) {
            return Err(DeviceMeshError::BufferSizeMismatch(AttributeType::Position));
        }
        if position.usage != attribute_usage(AttributeType::Position, with_ray_tracing) {
            return Err(DeviceMeshError::BufferUsageMismatch(AttributeType::Position));
        }
        if let Some(n) = normals {
            if n.size != attribute_size(AttributeType::Normals, num_vertices, num_triangles) {
                return Err(DeviceMeshError::BufferSizeMismatch(AttributeType::Normals));
            }
            if n.usage != attribute_usage(AttributeType::Normals, with_ray_tracing) {
                return Err(DeviceMeshError::BufferUsageMismatch(AttributeType::Normals));
            }
        }
        if indices.size != attribute_size(AttributeType::Index, num_vertices, num_triangles) {
            return Err(DeviceMeshError::BufferSizeMismatch(AttributeType::Index));
        }
        if indices.usage != attribute_usage(AttributeType::Index, with_ray_tracing) {
            return Err(DeviceMeshError::BufferUsageMismatch(AttributeType::Index));
        }
        Ok(DeviceMesh { num_vertices, num_triangles, position: Some(position), indices: Some(indices), normals })
    }

    pub fn position(&self) -> (r: Option<u64>)
        ensures
            r == Self::handle_of(self.position),
    {
        match self.position {
            Some(b) => Some(b.buffer),
            None => None,
        }
    }

    pub fn indices(&self) -> (r: Option<u64>)
        ensures
            r == Self::handle_of(self.indices),
    {
        match self.indices {
            Some(b) => Some(b.buffer),
            None => None,
        }
    }

    pub fn normals(&self) -> (r: Option<u64>)
        ensures
            r == Self::handle_of(self.normals),
    {
        match self.normals {
            Some(b) => Some(b.buffer),
            None => None,
        }
    }

    pub fn num_triangles(&self) -> (r: usize)
        ensures
            r == self.num_triangles,
    {
        self.num_triangles as usize
    }

    pub fn num_vertices(&self) -> (r: usize)
        ensures
            r == self.num_vertices,
    {
        self.num_vertices as usize
    }

    /// Handle of an optional buffer.
    pub open spec fn handle_of(b: Option<Buffer>) -> Option<u64> {
        match b {
            Some(buf) => Some(buf.buffer),
            None => None,
        }
    }

    /// Device address of an optional buffer, where it has one.
    pub open spec fn address_of(b: Option<Buffer>) -> Option<u64> {
        match b {
            Some(buf) => buf.spec_device_address(),
            None => None,
        }
    }

    pub fn position_device_address(&self) -> (r: Option<u64>)
        ensures
            r == Self::address_of(self.position),
    {
        match self.position {
            Some(b) => b.device_address(),
            None => None,
        }
    }

    pub fn indices_device_address(&self) -> (r: Option<u64>)
        ensures
            r == Self::address_of(self.indices),
    {
        match self.indices {
            Some(b) => b.device_address(),
            None => None,
        }
    }

    pub fn normals_device_address(&self) -> (r: Option<u64>)
        ensures
            r == Self::address_of(self.normals),
    {
        match self.normals {
            Some(b) => b.device_address(),
            None => None,
        }
    }
}

} // verus!

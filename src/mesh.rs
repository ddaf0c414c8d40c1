//! Decisions made while loading a mesh file: which reader handles it, where
//! the vertex normals come from, and which faces are triangles.

use vstd::prelude::*;

verus! {

/// One face of a mesh: three vertex indices.
#[derive(Debug, Copy, Clone)]
pub struct Triangle {
    pub indices: [i32; 3],
}

impl Triangle {
    pub fn new() -> (r: Triangle)
        ensures
            r.indices@ == seq![0i32, 0i32, 0i32],
    {
        let r = Triangle { indices: [0, 0, 0] };
        assert(r.indices@ =~= seq![0i32, 0i32, 0i32]);
        r
    }

    /// Takes a face's index list when it has exactly three entries; any other
    /// face is not a triangle and leaves this one as it was.
    pub fn set_vertex_indices(&mut self, list: &Vec<i32>) -> (r: bool)
        ensures
            r == (list@.len() == 3),
            r ==> final(self).indices@ == list@,
            !r ==> final(self).indices@ == old(self).indices@,
    {
        if list.len() != 3 {
            return false;
        }
        self.indices = [list[0], list[1], list[2]];
        assert(self.indices@ =~= list@);
        true
    }
}

#[derive(Debug, Eq, PartialEq, Clone, Copy, Structural)]
pub enum ReadOptions {
    OnlyTriangles,
    WithAttributes,
}

#[derive(Debug, Eq, PartialEq, Clone)]
pub enum MeshIOError {
    /// The file extension, as bytes, names no supported format.
    UnsupportedMeshFileType(Vec<u8>),
    NoFileExtension,
    /// The file has this many normals for this many vertices.
    InvalidNumberOfVertexAttributes(usize, usize),
}

/// The file formats meshes are read from.
#[derive(Debug, Eq, PartialEq, Clone, Copy, Structural)]
pub enum MeshFormat {
    Ply,
    Obj,
}

pub open spec fn is_ply_extension(e: Seq<u8>) -> bool {
    e == seq![0x70u8, 0x6cu8, 0x79u8] || e == seq![0x50u8, 0x4cu8, 0x59u8]
}

pub open spec fn is_obj_extension(e: Seq<u8>) -> bool {
    e == seq![0x6fu8, 0x62u8, 0x6au8] || e == seq![0x4fu8, 0x42u8, 0x4au8]
}

fn bytes_are(e: &Vec<u8>, a: u8, b: u8, c: u8) -> (r: bool)
    ensures
        r == (e@ == seq![a, b, c]),
{
    let r = e.len() == 3 && e[0] == a && e[1] == b && e[2] == c;
    if r {
        assert(e@ =~= seq![a, b, c]);
    }
    r
}

/// Picks the reader by file extension: `ply` or `PLY`, `obj` or `OBJ`.
pub fn mesh_format(extension: &Option<Vec<u8>>) -> (r: Result<MeshFormat, MeshIOError>)
    ensures
        extension is None <==> r == Err::<MeshFormat, MeshIOError>(MeshIOError::NoFileExtension),
        extension matches Some(e) ==> {
            &&& is_ply_extension(e@) <==> r == Ok::<MeshFormat, MeshIOError>(MeshFormat::Ply)
            &&& is_obj_extension(e@) <==> r == Ok::<MeshFormat, MeshIOError>(MeshFormat::Obj)
            &&& !is_ply_extension(e@) && !is_obj_extension(e@) <==> (r matches Err(
                MeshIOError::UnsupportedMeshFileType(v),
            ) && v@ == e@)
        },
{
    match extension {
        None => Err(MeshIOError::NoFileExtension),
        Some(e) => {
            if bytes_are(e, 0x70, 0x6c, 0x79) || bytes_are(e, 0x50, 0x4c, 0x59) {
                Ok(MeshFormat::Ply)
            } else if bytes_are(e, 0x6f, 0x62, 0x6a) || bytes_are(e, 0x4f, 0x42, 0x4a) {
                Ok(MeshFormat::Obj)
            } else {
                Err(MeshIOError::UnsupportedMeshFileType(e.clone()))
            }
        },
    }
}

/// Where a mesh's vertex normals come from.
#[derive(Debug, Eq, PartialEq, Clone, Copy, Structural)]
pub enum NormalsSource {
    /// The mesh is read without normals.
    Omitted,
    /// Computed from the triangles.
    Computed,
    /// One normal per vertex, as read from the file.
    FromFile,
}

/// Normals are omitted when only triangles are read; an object file's are
/// always computed; a polygon file's are taken when there is one per vertex,
/// computed when there are none, and refused otherwise.
pub open spec fn spec_normals_source(
    format: MeshFormat,
    options: ReadOptions,
    num_normals: usize,
    num_vertices: usize,
) -> Result<NormalsSource, MeshIOError> {
    if options == ReadOptions::OnlyTriangles {
        Ok(NormalsSource::Omitted)
    } else if format == MeshFormat::Obj || num_normals == 0 {
        Ok(NormalsSource::Computed)
    } else if num_normals == num_vertices {
        Ok(NormalsSource::FromFile)
    } else {
        Err(MeshIOError::InvalidNumberOfVertexAttributes(num_normals, num_vertices))
    }
}

pub fn normals_source(
    format: MeshFormat,
    options: ReadOptions,
    num_normals: usize,
    num_vertices: usize,
) -> (r: Result<NormalsSource, MeshIOError>)
    ensures
        r == spec_normals_source(format, options, num_normals, num_vertices),
{
    if options == ReadOptions::OnlyTriangles {
        Ok(NormalsSource::Omitted)
    } else if format == MeshFormat::Obj || num_normals == 0 {
        Ok(NormalsSource::Computed)
    } else if num_normals == num_vertices {
        Ok(NormalsSource::FromFile)
    } else {
        Err(MeshIOError::InvalidNumberOfVertexAttributes(num_normals, num_vertices))
    }
}

} // verus!

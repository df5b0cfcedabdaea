use vstd::prelude::*;

use crate::err::DecodeError;
use crate::reader::{sp_u32le, sp_u8, sp_varint, Reader};
use crate::xnb::asset::index_buffer::{IndexBuffer, IndexBufferV};
use crate::xnb::asset::math::{sp_mat4, sp_vec3, Mat4, Vec3};
use crate::xnb::asset::vertex_decl::VertexDeclarationV;
use crate::xnb::asset::{sp_asset, sp_names, AssetV, XnbAsset};
use crate::xnb::asset::vertex_buffer::{VertexBuffer, VertexBufferV};
use crate::xnb::asset::vertex_decl::VertexDeclaration;
use crate::xnb::TypeReader;
use crate::reader::sp_f32bits;

verus! {

/// A sphere around a mesh: center and radius, the radius an IEEE single's
/// bit pattern.
#[derive(Debug, Clone, Copy, PartialEq, Eq, Structural)]
pub struct BoundingSphere {
    pub center: Vec3,
    pub radius: u32,
}

pub open spec fn sp_bounding_sphere(d: Seq<u8>, p: int) -> Option<(BoundingSphere, int)> {
    match sp_vec3(d, p) {
        None => None,
        Some((center, p1)) => match sp_f32bits(d, p1) {
            None => None,
            Some((radius, p2)) => Some((BoundingSphere { center, radius }, p2)),
        },
    }
}

impl BoundingSphere {
    pub fn read(rd: &mut Reader) -> (r: Result<BoundingSphere, DecodeError>)
        requires
            old(rd).wf(),
        ensures
            final(rd).wf(),
            final(rd).data@ == old(rd).data@,
            match r {
                Ok(v) => sp_bounding_sphere(old(rd).data@, old(rd).pos as int) == Some(
                    (v, final(rd).pos as int),
                ) && final(rd).pos > old(rd).pos,
                Err(_) => sp_bounding_sphere(old(rd).data@, old(rd).pos as int) is None,
            },
    {
        let center = match rd.read_vec3() {
            Ok(v) => v,
            Err(e) => {
                return Err(e);
            },
        };
        let radius = match rd.read_f32bits() {
            Ok(v) => v,
            Err(e) => {
                return Err(e);
            },
        };
        Ok(BoundingSphere { center, radius })
    }
}

/// An axis-aligned box: minimum and maximum corner.
#[derive(Debug, Clone, Copy, PartialEq, Eq, Structural)]
pub struct BoundingBox {
    pub min: Vec3,
    pub max: Vec3,
}

pub open spec fn sp_bounding_box(d: Seq<u8>, p: int) -> Option<(BoundingBox, int)> {
    match sp_vec3(d, p) {
        None => None,
        Some((min, p1)) => match sp_vec3(d, p1) {
            None => None,
            Some((max, p2)) => Some((BoundingBox { min, max }, p2)),
        },
    }
}

impl BoundingBox {
    pub fn read(rd: &mut Reader) -> (r: Result<BoundingBox, DecodeError>)
        requires
            old(rd).wf(),
        ensures
            final(rd).wf(),
            final(rd).data@ == old(rd).data@,
            match r {
                Ok(v) => sp_bounding_box(old(rd).data@, old(rd).pos as int) == Some(
                    (v, final(rd).pos as int),
                ) && final(rd).pos > old(rd).pos,
                Err(_) => sp_bounding_box(old(rd).data@, old(rd).pos as int) is None,
            },
    {
        let min = match rd.read_vec3() {
            Ok(v) => v,
            Err(e) => {
                return Err(e);
            },
        };
        let max = match rd.read_vec3() {
            Ok(v) => v,
            Err(e) => {
                return Err(e);
            },
        };
        Ok(BoundingBox { min, max })
    }
}

/// A bone reference: one byte when the model holds at most 255 bones, a
/// little-endian 32-bit value otherwise.
pub open spec fn sp_bone_ref(d: Seq<u8>, p: int, num_bones: u32) -> Option<(u32, int)> {
    if num_bones <= 255 {
        match sp_u8(d, p) {
            None => None,
            Some((b, p1)) => Some((b as u32, p1)),
        }
    } else {
        sp_u32le(d, p)
    }
}

pub fn read_bone_ref(rd: &mut Reader, num_bones: u32) -> (r: Result<u32, DecodeError>)
    requires
        old(rd).wf(),
    ensures
        final(rd).wf(),
        final(rd).data@ == old(rd).data@,
        match r {
            Ok(v) => sp_bone_ref(old(rd).data@, old(rd).pos as int, num_bones) == Some(
                (v, final(rd).pos as int),
            ) && final(rd).pos > old(rd).pos,
            Err(_) => sp_bone_ref(old(rd).data@, old(rd).pos as int, num_bones) is None,
        },
{
    if num_bones <= 255 {
        match rd.read_u8() {
            Ok(b) => Ok(b as u32),
            Err(e) => Err(e),
        }
    } else {
        rd.read_u32le()
    }
}

/// One slice of a mesh's buffers, with its vertex-declaration index and a
/// one-based shared-asset material index.
#[derive(Debug, Clone, Copy, PartialEq, Eq, Structural)]
pub struct MeshPart {
    pub stream_offset: u32,
    pub base_vertex: u32,
    pub vertex_count: u32,
    pub start_index: u32,
    pub primitive_count: u32,
    pub vertex_decl_index: u32,
    pub tag: u8,
    pub shared_content_material_index: i32,
}

pub open spec fn sp_mesh_part(d: Seq<u8>, p: int) -> Option<(MeshPart, int)> {
    match sp_u32le(d, p) {
        None => None,
        Some((stream_offset, p1)) => match sp_u32le(d, p1) {
            None => None,
            Some((base_vertex, p2)) => match sp_u32le(d, p2) {
                None => None,
                Some((vertex_count, p3)) => match sp_u32le(d, p3) {
                    None => None,
                    Some((start_index, p4)) => match sp_u32le(d, p4) {
                        None => None,
                        Some((primitive_count, p5)) => match sp_u32le(d, p5) {
                            None => None,
                            Some((vertex_decl_index, p6)) => match sp_u8(d, p6) {
                                None => None,
                                Some((tag, p7)) => match sp_varint(d, p7) {
                                    None => None,
                                    Some((scmi, p8)) => Some(
                                        (
                                            MeshPart {
                                                stream_offset,
                                                base_vertex,
                                                vertex_count,
                                                start_index,
                                                primitive_count,
                                                vertex_decl_index,
                                                tag,
                                                shared_content_material_index: scmi as i32,
                                            },
                                            p8,
                                        ),
                                    ),
                                },
                            },
                        },
                    },
                },
            },
        },
    }
}

impl MeshPart {
    pub fn read(rd: &mut Reader) -> (r: Result<MeshPart, DecodeError>)
        requires
            old(rd).wf(),
        ensures
            final(rd).wf(),
            final(rd).data@ == old(rd).data@,
            match r {
                Ok(v) => sp_mesh_part(old(rd).data@, old(rd).pos as int) == Some(
                    (v, final(rd).pos as int),
                ) && final(rd).pos > old(rd).pos,
                Err(_) => sp_mesh_part(old(rd).data@, old(rd).pos as int) is None,
            },
    {
        let stream_offset = match rd.read_u32le() {
            Ok(v) => v,
            Err(e) => {
                return Err(e);
            },
        };
        let base_vertex = match rd.read_u32le() {
            Ok(v) => v,
            Err(e) => {
                return Err(e);
            },
        };
        let vertex_count = match rd.read_u32le() {
            Ok(v) => v,
            Err(e) => {
                return Err(e);
            },
        };
        let start_index = match rd.read_u32le() {
            Ok(v) => v,
            Err(e) => {
                return Err(e);
            },
        };
        let primitive_count = match rd.read_u32le() {
            Ok(v) => v,
            Err(e) => {
                return Err(e);
            },
        };
        let vertex_decl_index = match rd.read_u32le() {
            Ok(v) => v,
            Err(e) => {
                return Err(e);
            },
        };
        let tag = match rd.read_u8() {
            Ok(v) => v,
            Err(e) => {
                return Err(e);
            },
        };
        let scmi = match rd.read_varint() {
            Ok(v) => v,
            Err(e) => {
                return Err(e);
            },
        };
        Ok(
            MeshPart {
                stream_offset,
                base_vertex,
                vertex_count,
                start_index,
                primitive_count,
                vertex_decl_index,
                tag,
                shared_content_material_index: scmi as i32,
            },
        )
    }
}

pub open spec fn sp_mesh_parts(d: Seq<u8>, p: int, n: nat) -> Option<(Seq<MeshPart>, int)>
    decreases n,
{
    if n == 0 {
        Some((Seq::empty(), p))
    } else {
        match sp_mesh_part(d, p) {
            None => None,
            Some((v, p1)) => match sp_mesh_parts(d, p1, (n - 1) as nat) {
                None => None,
                Some((vs, p2)) => Some((Seq::empty().push(v) + vs, p2)),
            },
        }
    }
}

/// Parent and children of one bone, as compact bone references.
#[derive(Debug, Clone, PartialEq, Eq)]
pub struct BoneHierarchy {
    pub parent_ref: u32,
    pub children_refs: Vec<u32>,
}

pub struct BoneHierarchyV {
    pub parent_ref: u32,
    pub children_refs: Seq<u32>,
}

impl View for BoneHierarchy {
    type V = BoneHierarchyV;

    open spec fn view(&self) -> BoneHierarchyV {
        BoneHierarchyV { parent_ref: self.parent_ref, children_refs: self.children_refs@ }
    }
}

pub open spec fn sp_bone_refs(d: Seq<u8>, p: int, num_bones: u32, n: nat) -> Option<
    (Seq<u32>, int),
>
    decreases n,
{
    if n == 0 {
        Some((Seq::empty(), p))
    } else {
        match sp_bone_ref(d, p, num_bones) {
            None => None,
            Some((v, p1)) => match sp_bone_refs(d, p1, num_bones, (n - 1) as nat) {
                None => None,
                Some((vs, p2)) => Some((Seq::empty().push(v) + vs, p2)),
            },
        }
    }
}

pub open spec fn sp_bone_hierarchy(d: Seq<u8>, p: int, num_bones: u32) -> Option<
    (BoneHierarchyV, int),
> {
    match sp_bone_ref(d, p, num_bones) {
        None => None,
        Some((parent_ref, p1)) => match sp_u32le(d, p1) {
            None => None,
            Some((n, p2)) => match sp_bone_refs(d, p2, num_bones, n as nat) {
                None => None,
                Some((children_refs, p3)) => Some(
                    (BoneHierarchyV { parent_ref, children_refs }, p3),
                ),
            },
        },
    }
}

pub open spec fn sp_bone_hierarchies(d: Seq<u8>, p: int, num_bones: u32, n: nat) -> Option<
    (Seq<BoneHierarchyV>, int),
>
    decreases n,
{
    if n == 0 {
        Some((Seq::empty(), p))
    } else {
        match sp_bone_hierarchy(d, p, num_bones) {
            None => None,
            Some((v, p1)) => match sp_bone_hierarchies(d, p1, num_bones, (n - 1) as nat) {
                None => None,
                Some((vs, p2)) => Some((Seq::empty().push(v) + vs, p2)),
            },
        }
    }
}

impl BoneHierarchy {
    pub fn read(rd: &mut Reader, num_bones: u32) -> (r: Result<BoneHierarchy, DecodeError>)
        requires
            old(rd).wf(),
        ensures
            final(rd).wf(),
            final(rd).data@ == old(rd).data@,
            match r {
                Ok(v) => sp_bone_hierarchy(old(rd).data@, old(rd).pos as int, num_bones) == Some(
                    (v@, final(rd).pos as int),
                ) && final(rd).pos > old(rd).pos,
                Err(_) => sp_bone_hierarchy(old(rd).data@, old(rd).pos as int, num_bones) is None,
            },
    {
        let ghost d = old(rd).data@;
        let parent_ref = match read_bone_ref(rd, num_bones) {
            Ok(v) => v,
            Err(e) => {
                return Err(e);
            },
        };
        let ghost pa = rd.pos as int;
        let n = match rd.read_u32le() {
            Ok(v) => v,
            Err(e) => {
                return Err(e);
            },
        };
        let ghost p2 = rd.pos as int;
        let mut children_refs: Vec<u32> = Vec::new();
        let mut i: u32 = 0;
        while i < n
            invariant
                rd.wf(),
                rd.data@ == d,
                d == old(rd).data@,
                sp_bone_ref(d, old(rd).pos as int, num_bones) == Some((parent_ref, pa)),
                sp_u32le(d, pa) == Some((n, p2)),
                old(rd).pos < p2 <= rd.pos,
                i <= n,
                children_refs@.len() == i,
                sp_bone_refs(d, p2, num_bones, n as nat) == match sp_bone_refs(
                    d,
                    rd.pos as int,
                    num_bones,
                    (n - i) as nat,
                ) {
                    None => None::<(Seq<u32>, int)>,
                    Some((vs, pe)) => Some((children_refs@ + vs, pe)),
                },
            decreases n - i,
        {
            let v = match read_bone_ref(rd, num_bones) {
                Ok(v) => v,
                Err(e) => {
                    return Err(e);
                },
            };
            proof {
                match sp_bone_refs(d, rd.pos as int, num_bones, (n - i - 1) as nat) {
                    Some((vs, pe)) => {
                        assert(children_refs@.push(v) + vs =~= children_refs@ + (
                        Seq::empty().push(v) + vs));
                    },
                    None => {},
                }
            }
            children_refs.push(v);
            i = i + 1;
        }
        proof {
            assert(children_refs@ + Seq::<u32>::empty() =~= children_refs@);
        }
        Ok(BoneHierarchy { parent_ref, children_refs })
    }
}

/// A named bone with its rest transform. The name arrives as a nested
/// string asset.
#[derive(Debug, Clone, PartialEq, Eq)]
pub struct Bone {
    pub name: String,
    pub transform: Mat4,
}

pub struct BoneV {
    pub name: Seq<char>,
    pub transform: Mat4,
}

impl View for Bone {
    type V = BoneV;

    open spec fn view(&self) -> BoneV {
        BoneV { name: self.name@, transform: self.transform }
    }
}

pub open spec fn sp_bone(d: Seq<u8>, p: int, names: Seq<Seq<char>>) -> Option<(BoneV, int)>
    decreases d.len() - p, 1int,
{
    match sp_asset(d, p, names) {
        None => None,
        Some((a, p1)) => match a {
            AssetV::String(name) => match sp_mat4(d, p1) {
                None => None,
                Some((transform, p2)) => Some((BoneV { name, transform }, p2)),
            },
            _ => None,
        },
    }
}

pub open spec fn sp_bones(d: Seq<u8>, p: int, names: Seq<Seq<char>>, n: nat) -> Option<
    (Seq<BoneV>, int),
>
    decreases d.len() - p, 2int, n,
{
    if n == 0 {
        Some((Seq::empty(), p))
    } else {
        match sp_bone(d, p, names) {
            None => None,
            Some((v, p1)) => {
                if p < p1 <= d.len() {
                    match sp_bones(d, p1, names, (n - 1) as nat) {
                        None => None,
                        Some((vs, p2)) => Some((Seq::empty().push(v) + vs, p2)),
                    }
                } else {
                    None
                }
            },
        }
    }
}

impl Bone {
    pub fn read(rd: &mut Reader, type_readers: &[TypeReader]) -> (r: Result<Bone, DecodeError>)
        requires
            old(rd).wf(),
        ensures
            final(rd).wf(),
            final(rd).data@ == old(rd).data@,
            match r {
                Ok(v) => sp_bone(old(rd).data@, old(rd).pos as int, sp_names(type_readers@))
                    == Some((v@, final(rd).pos as int)) && final(rd).pos > old(rd).pos,
                Err(_) => sp_bone(old(rd).data@, old(rd).pos as int, sp_names(type_readers@))
                    is None,
            },
        decreases old(rd).data@.len() - old(rd).pos, 1int,
    {
        let name = match XnbAsset::read(rd, type_readers) {
            Ok(XnbAsset::String(s)) => s,
            Ok(_) => {
                return Err(DecodeError::UnexpectedAsset);
            },
            Err(e) => {
                return Err(e);
            },
        };
        let transform = match rd.read_mat4() {
            Ok(v) => v,
            Err(e) => {
                return Err(e);
            },
        };
        Ok(Bone { name, transform })
    }
}

/// A mesh: name, parent bone, bounds, its own buffers, and its parts.
#[derive(Debug, Clone, PartialEq, Eq)]
pub struct Mesh {
    pub name: String,
    pub parent_bone_ref: u32,
    pub bounds: BoundingSphere,
    pub vertex_buffer: VertexBuffer,
    pub index_buffer: IndexBuffer,
    pub parts: Vec<MeshPart>,
    pub tag: u8,
}

pub struct MeshV {
    pub name: Seq<char>,
    pub parent_bone_ref: u32,
    pub bounds: BoundingSphere,
    pub vertex_buffer: VertexBufferV,
    pub index_buffer: IndexBufferV,
    pub parts: Seq<MeshPart>,
    pub tag: u8,
}

impl View for Mesh {
    type V = MeshV;

    open spec fn view(&self) -> MeshV {
        MeshV {
            name: self.name@,
            parent_bone_ref: self.parent_bone_ref,
            bounds: self.bounds,
            vertex_buffer: self.vertex_buffer@,
            index_buffer: self.index_buffer@,
            parts: self.parts@,
            tag: self.tag,
        }
    }
}

pub open spec fn sp_mesh(d: Seq<u8>, p: int, names: Seq<Seq<char>>) -> Option<(MeshV, int)>
    decreases d.len() - p, 1int,
{
    match sp_asset(d, p, names) {
        None => None,
        Some((a0, p1)) => match a0 {
            AssetV::String(name) => match sp_bone_ref(d, p1, 0) {
                None => None,
                Some((parent_bone_ref, p2)) => match sp_bounding_sphere(d, p2) {
                    None => None,
                    Some((bounds, p3)) => {
                        if !(p < p3 <= d.len()) {
                            None
                        } else {
                            match sp_asset(d, p3, names) {
                                None => None,
                                Some((a1, p4)) => match a1 {
                                    AssetV::VertexBuffer(vertex_buffer) => {
                                        if !(p < p4 <= d.len()) {
                                            None
                                        } else {
                                            match sp_asset(d, p4, names) {
                                                None => None,
                                                Some((a2, p5)) => match a2 {
                                                    AssetV::IndexBuffer(index_buffer) => match
                                                        sp_u8(d, p5) {
                                                        None => None,
                                                        Some((tag, p6)) => match sp_u32le(d, p6) {
                                                            None => None,
                                                            Some((np, p7)) => match sp_mesh_parts(
                                                                d,
                                                                p7,
                                                                np as nat,
                                                            ) {
                                                                None => None,
                                                                Some((parts, p8)) => Some(
                                                                    (
                                                                        MeshV {
                                                                            name,
                                                                            parent_bone_ref,
                                                                            bounds,
                                                                            vertex_buffer,
                                                                            index_buffer,
                                                                            parts,
                                                                            tag,
                                                                        },
                                                                        p8,
                                                                    ),
                                                                ),
                                                            },
                                                        },
                                                    },
                                                    _ => None,
                                                },
                                            }
                                        }
                                    },
                                    _ => None,
                                },
                            }
                        }
                    },
                },
            },
            _ => None,
        },
    }
}

pub open spec fn sp_meshes(d: Seq<u8>, p: int, names: Seq<Seq<char>>, n: nat) -> Option<
    (Seq<MeshV>, int),
>
    decreases d.len() - p, 2int, n,
{
    if n == 0 {
        Some((Seq::empty(), p))
    } else {
        match sp_mesh(d, p, names) {
            None => None,
            Some((v, p1)) => {
                if p < p1 <= d.len() {
                    match sp_meshes(d, p1, names, (n - 1) as nat) {
                        None => None,
                        Some((vs, p2)) => Some((Seq::empty().push(v) + vs, p2)),
                    }
                } else {
                    None
                }
            },
        }
    }
}

impl Mesh {
    #[verifier::rlimit(100)]
    pub fn read(rd: &mut Reader, type_readers: &[TypeReader]) -> (r: Result<Mesh, DecodeError>)
        requires
            old(rd).wf(),
        ensures
            final(rd).wf(),
            final(rd).data@ == old(rd).data@,
            match r {
                Ok(v) => sp_mesh(old(rd).data@, old(rd).pos as int, sp_names(type_readers@))
                    == Some((v@, final(rd).pos as int)) && final(rd).pos > old(rd).pos,
                Err(_) => sp_mesh(old(rd).data@, old(rd).pos as int, sp_names(type_readers@))
                    is None,
            },
        decreases old(rd).data@.len() - old(rd).pos, 1int,
    {
        let ghost d = old(rd).data@;
        let name = match XnbAsset::read(rd, type_readers) {
            Ok(XnbAsset::String(s)) => s,
            Ok(_) => {
                return Err(DecodeError::UnexpectedAsset);
            },
            Err(e) => {
                return Err(e);
            },
        };
        let parent_bone_ref = match read_bone_ref(rd, 0) {
            Ok(v) => v,
            Err(e) => {
                return Err(e);
            },
        };
        let bounds = match BoundingSphere::read(rd) {
            Ok(v) => v,
            Err(e) => {
                return Err(e);
            },
        };
        let vertex_buffer = match XnbAsset::read(rd, type_readers) {
            Ok(XnbAsset::VertexBuffer(v)) => v,
            Ok(_) => {
                return Err(DecodeError::UnexpectedAsset);
            },
            Err(e) => {
                return Err(e);
            },
        };
        let index_buffer = match XnbAsset::read(rd, type_readers) {
            Ok(XnbAsset::IndexBuffer(v)) => v,
            Ok(_) => {
                return Err(DecodeError::UnexpectedAsset);
            },
            Err(e) => {
                return Err(e);
            },
        };
        let tag = match rd.read_u8() {
            Ok(v) => v,
            Err(e) => {
                return Err(e);
            },
        };
        let np = match rd.read_u32le() {
            Ok(v) => v,
            Err(e) => {
                return Err(e);
            },
        };
        let parts = match read_mesh_parts(rd, np) {
            Ok(v) => v,
            Err(e) => {
                return Err(e);
            },
        };
        Ok(Mesh { name, parent_bone_ref, bounds, vertex_buffer, index_buffer, parts, tag })
    }
}

/// `n` vertex declarations, each arriving as a nested asset.
pub open spec fn sp_decl_assets(d: Seq<u8>, p: int, names: Seq<Seq<char>>, n: nat) -> Option<
    (Seq<VertexDeclarationV>, int),
>
    decreases d.len() - p, 1int, n,
{
    if n == 0 {
        Some((Seq::empty(), p))
    } else {
        match sp_asset(d, p, names) {
            None => None,
            Some((a, p1)) => match a {
                AssetV::VertexDeclaration(v) => {
                    if p < p1 <= d.len() {
                        match sp_decl_assets(d, p1, names, (n - 1) as nat) {
                            None => None,
                            Some((vs, p2)) => Some((Seq::empty().push(v) + vs, p2)),
                        }
                    } else {
                        None
                    }
                },
                _ => None,
            },
        }
    }
}


/// Reads `n` consecutive mesh parts.
fn read_mesh_parts(rd: &mut Reader, n: u32) -> (r: Result<Vec<MeshPart>, DecodeError>)
    requires
        old(rd).wf(),
    ensures
        final(rd).wf(),
        final(rd).data@ == old(rd).data@,
        r is Ok ==> final(rd).pos >= old(rd).pos,
        match r {
            Ok(v) => sp_mesh_parts(old(rd).data@, old(rd).pos as int, n as nat) == Some(
                (v@, final(rd).pos as int),
            ),
            Err(_) => sp_mesh_parts(old(rd).data@, old(rd).pos as int, n as nat) is None,
        },
{
    let ghost d = old(rd).data@;
    let ghost p0 = old(rd).pos as int;
    let mut parts: Vec<MeshPart> = Vec::new();
    let mut i: u32 = 0;
    while i < n
        invariant
            rd.wf(),
            rd.data@ == d,
            d == old(rd).data@,
            p0 == old(rd).pos,
            p0 <= rd.pos,
            i <= n,
            parts@.len() == i,
            sp_mesh_parts(d, p0, n as nat) == match sp_mesh_parts(d, rd.pos as int, (n - i) as nat) {
                None => None::<(Seq<MeshPart>, int)>,
                Some((vs, pe)) => Some((parts@ + vs, pe)),
            },
        decreases n - i,
    {
        let part = match MeshPart::read(rd) {
            Ok(v) => v,
            Err(e) => {
                return Err(e);
            },
        };
        proof {
            match sp_mesh_parts(d, rd.pos as int, (n - i - 1) as nat) {
                Some((vs, pe)) => {
                    assert(parts@.push(part) + vs =~= parts@ + (Seq::empty().push(part) + vs));
                },
                None => {},
            }
        }
        parts.push(part);
        i = i + 1;
    }
    proof {
        assert(parts@ + Seq::<MeshPart>::empty() =~= parts@);
    }
    Ok(parts)
}

/// Reads `n` bones, each a nested string asset and a transform.
fn read_bones(rd: &mut Reader, type_readers: &[TypeReader], n: u32) -> (r: Result<
    Vec<Bone>,
    DecodeError,
>)
    requires
        old(rd).wf(),
    ensures
        final(rd).wf(),
        final(rd).data@ == old(rd).data@,
        r is Ok ==> final(rd).pos >= old(rd).pos,
        match r {
            Ok(v) => sp_bones(old(rd).data@, old(rd).pos as int, sp_names(type_readers@), n as nat)
                == Some((v@.map_values(|b: Bone| b@), final(rd).pos as int)),
            Err(_) => sp_bones(
                old(rd).data@,
                old(rd).pos as int,
                sp_names(type_readers@),
                n as nat,
            ) is None,
        },
    decreases old(rd).data@.len() - old(rd).pos, 2int,
{
    let ghost d = old(rd).data@;
    let ghost p0 = old(rd).pos as int;
    let ghost names = sp_names(type_readers@);
    let mut bones: Vec<Bone> = Vec::new();
    let mut i: u32 = 0;
    while i < n
        invariant
            rd.wf(),
            rd.data@ == d,
            d == old(rd).data@,
            p0 <= rd.pos,
            p0 == old(rd).pos,
            p0 <= rd.pos,
            names == sp_names(type_readers@),
            i <= n,
            bones@.len() == i,
            sp_bones(d, p0, names, n as nat) == match sp_bones(
                d,
                rd.pos as int,
                names,
                (n - i) as nat,
            ) {
                None => None::<(Seq<BoneV>, int)>,
                Some((vs, pe)) => Some((bones@.map_values(|b: Bone| b@) + vs, pe)),
            },
        decreases n - i,
    {
        let bone = match Bone::read(rd, type_readers) {
            Ok(v) => v,
            Err(e) => {
                return Err(e);
            },
        };
        proof {
            match sp_bones(d, rd.pos as int, names, (n - i - 1) as nat) {
                Some((vs, pe)) => {
                    assert(bones@.push(bone).map_values(|b: Bone| b@) + vs =~= bones@.map_values(
                        |b: Bone| b@,
                    ) + (Seq::empty().push(bone@) + vs));
                },
                None => {},
            }
        }
        bones.push(bone);
        i = i + 1;
    }
    proof {
        assert(bones@.map_values(|b: Bone| b@) + Seq::<BoneV>::empty() =~= bones@.map_values(
            |b: Bone| b@,
        ));
    }
    Ok(bones)
}

/// Reads `n` bone-hierarchy records.
fn read_bone_hierarchies(rd: &mut Reader, num_bones: u32, n: u32) -> (r: Result<
    Vec<BoneHierarchy>,
    DecodeError,
>)
    requires
        old(rd).wf(),
    ensures
        final(rd).wf(),
        final(rd).data@ == old(rd).data@,
        r is Ok ==> final(rd).pos >= old(rd).pos,
        match r {
            Ok(v) => sp_bone_hierarchies(old(rd).data@, old(rd).pos as int, num_bones, n as nat)
                == Some((v@.map_values(|b: BoneHierarchy| b@), final(rd).pos as int)),
            Err(_) => sp_bone_hierarchies(
                old(rd).data@,
                old(rd).pos as int,
                num_bones,
                n as nat,
            ) is None,
        },
{
    let ghost d = old(rd).data@;
    let ghost p0 = old(rd).pos as int;
    let mut hs: Vec<BoneHierarchy> = Vec::new();
    let mut i: u32 = 0;
    while i < n
        invariant
            rd.wf(),
            rd.data@ == d,
            d == old(rd).data@,
            p0 == old(rd).pos,
            p0 <= rd.pos,
            i <= n,
            hs@.len() == i,
            sp_bone_hierarchies(d, p0, num_bones, n as nat) == match sp_bone_hierarchies(
                d,
                rd.pos as int,
                num_bones,
                (n - i) as nat,
            ) {
                None => None::<(Seq<BoneHierarchyV>, int)>,
                Some((vs, pe)) => Some((hs@.map_values(|b: BoneHierarchy| b@) + vs, pe)),
            },
        decreases n - i,
    {
        let h = match BoneHierarchy::read(rd, num_bones) {
            Ok(v) => v,
            Err(e) => {
                return Err(e);
            },
        };
        proof {
            match sp_bone_hierarchies(d, rd.pos as int, num_bones, (n - i - 1) as nat) {
                Some((vs, pe)) => {
                    assert(hs@.push(h).map_values(|b: BoneHierarchy| b@) + vs =~= hs@.map_values(
                        |b: BoneHierarchy| b@,
                    ) + (Seq::empty().push(h@) + vs));
                },
                None => {},
            }
        }
        hs.push(h);
        i = i + 1;
    }
    proof {
        assert(hs@.map_values(|b: BoneHierarchy| b@) + Seq::<BoneHierarchyV>::empty()
            =~= hs@.map_values(|b: BoneHierarchy| b@));
    }
    Ok(hs)
}

/// Reads `n` vertex declarations, each a nested asset.
fn read_decl_assets(rd: &mut Reader, type_readers: &[TypeReader], n: u32) -> (r: Result<
    Vec<VertexDeclaration>,
    DecodeError,
>)
    requires
        old(rd).wf(),
    ensures
        final(rd).wf(),
        final(rd).data@ == old(rd).data@,
        r is Ok ==> final(rd).pos >= old(rd).pos,
        match r {
            Ok(v) => sp_decl_assets(
                old(rd).data@,
                old(rd).pos as int,
                sp_names(type_readers@),
                n as nat,
            ) == Some((v@.map_values(|x: VertexDeclaration| x@), final(rd).pos as int)),
            Err(_) => sp_decl_assets(
                old(rd).data@,
                old(rd).pos as int,
                sp_names(type_readers@),
                n as nat,
            ) is None,
        },
    decreases old(rd).data@.len() - old(rd).pos, 1int,
{
    let ghost d = old(rd).data@;
    let ghost p0 = old(rd).pos as int;
    let ghost names = sp_names(type_readers@);
    let mut decls: Vec<VertexDeclaration> = Vec::new();
    let mut i: u32 = 0;
    while i < n
        invariant
            rd.wf(),
            rd.data@ == d,
            d == old(rd).data@,
            p0 <= rd.pos,
            p0 == old(rd).pos,
            p0 <= rd.pos,
            names == sp_names(type_readers@),
            i <= n,
            decls@.len() == i,
            sp_decl_assets(d, p0, names, n as nat) == match sp_decl_assets(
                d,
                rd.pos as int,
                names,
                (n - i) as nat,
            ) {
                None => None::<(Seq<VertexDeclarationV>, int)>,
                Some((vs, pe)) => Some((decls@.map_values(|x: VertexDeclaration| x@) + vs, pe)),
            },
        decreases n - i,
    {
        let decl = match XnbAsset::read(rd, type_readers) {
            Ok(XnbAsset::VertexDeclaration(v)) => v,
            Ok(_) => {
                return Err(DecodeError::UnexpectedAsset);
            },
            Err(e) => {
                return Err(e);
            },
        };
        proof {
            match sp_decl_assets(d, rd.pos as int, names, (n - i - 1) as nat) {
                Some((vs, pe)) => {
                    assert(decls@.push(decl).map_values(|x: VertexDeclaration| x@) + vs
                        =~= decls@.map_values(|x: VertexDeclaration| x@) + (Seq::empty().push(
                        decl@,
                    ) + vs));
                },
                None => {},
            }
        }
        decls.push(decl);
        i = i + 1;
    }
    proof {
        assert(decls@.map_values(|x: VertexDeclaration| x@) + Seq::<VertexDeclarationV>::empty()
            =~= decls@.map_values(|x: VertexDeclaration| x@));
    }
    Ok(decls)
}

/// Reads `n` meshes.
fn read_meshes(rd: &mut Reader, type_readers: &[TypeReader], n: u32) -> (r: Result<
    Vec<Mesh>,
    DecodeError,
>)
    requires
        old(rd).wf(),
    ensures
        final(rd).wf(),
        final(rd).data@ == old(rd).data@,
        r is Ok ==> final(rd).pos >= old(rd).pos,
        match r {
            Ok(v) => sp_meshes(
                old(rd).data@,
                old(rd).pos as int,
                sp_names(type_readers@),
                n as nat,
            ) == Some((v@.map_values(|x: Mesh| x@), final(rd).pos as int)),
            Err(_) => sp_meshes(
                old(rd).data@,
                old(rd).pos as int,
                sp_names(type_readers@),
                n as nat,
            ) is None,
        },
    decreases old(rd).data@.len() - old(rd).pos, 2int,
{
    let ghost d = old(rd).data@;
    let ghost p0 = old(rd).pos as int;
    let ghost names = sp_names(type_readers@);
    let mut meshes: Vec<Mesh> = Vec::new();
    let mut i: u32 = 0;
    while i < n
        invariant
            rd.wf(),
            rd.data@ == d,
            d == old(rd).data@,
            p0 <= rd.pos,
            p0 == old(rd).pos,
            p0 <= rd.pos,
            names == sp_names(type_readers@),
            i <= n,
            meshes@.len() == i,
            sp_meshes(d, p0, names, n as nat) == match sp_meshes(
                d,
                rd.pos as int,
                names,
                (n - i) as nat,
            ) {
                None => None::<(Seq<MeshV>, int)>,
                Some((vs, pe)) => Some((meshes@.map_values(|x: Mesh| x@) + vs, pe)),
            },
        decreases n - i,
    {
        let mesh = match Mesh::read(rd, type_readers) {
            Ok(v) => v,
            Err(e) => {
                return Err(e);
            },
        };
        proof {
            match sp_meshes(d, rd.pos as int, names, (n - i - 1) as nat) {
                Some((vs, pe)) => {
                    assert(meshes@.push(mesh).map_values(|x: Mesh| x@) + vs =~= meshes@.map_values(
                        |x: Mesh| x@,
                    ) + (Seq::empty().push(mesh@) + vs));
                },
                None => {},
            }
        }
        meshes.push(mesh);
        i = i + 1;
    }
    proof {
        assert(meshes@.map_values(|x: Mesh| x@) + Seq::<MeshV>::empty() =~= meshes@.map_values(
            |x: Mesh| x@,
        ));
    }
    Ok(meshes)
}

/// A skinned model: bones, their hierarchy, shared vertex declarations,
/// meshes, and the root bone.
#[derive(Debug, Clone, PartialEq, Eq)]
pub struct Model {
    pub bones: Vec<Bone>,
    pub bones_hierarchy: Vec<BoneHierarchy>,
    pub vertex_decls: Vec<VertexDeclaration>,
    pub meshes: Vec<Mesh>,
    pub root_bone_ref: u32,
    pub tag: u8,
}

pub struct ModelV {
    pub bones: Seq<BoneV>,
    pub bones_hierarchy: Seq<BoneHierarchyV>,
    pub vertex_decls: Seq<VertexDeclarationV>,
    pub meshes: Seq<MeshV>,
    pub root_bone_ref: u32,
    pub tag: u8,
}

impl View for Model {
    type V = ModelV;

    open spec fn view(&self) -> ModelV {
        ModelV {
            bones: self.bones@.map_values(|b: Bone| b@),
            bones_hierarchy: self.bones_hierarchy@.map_values(|b: BoneHierarchy| b@),
            vertex_decls: self.vertex_decls@.map_values(|v: VertexDeclaration| v@),
            meshes: self.meshes@.map_values(|m: Mesh| m@),
            root_bone_ref: self.root_bone_ref,
            tag: self.tag,
        }
    }
}

pub open spec fn sp_model(d: Seq<u8>, p: int, names: Seq<Seq<char>>) -> Option<(ModelV, int)>
    decreases d.len() - p, 0int,
{
    match sp_u32le(d, p) {
        None => None,
        Some((num_bones, p1)) => {
            if !(p < p1 <= d.len()) {
                None
            } else {
                match sp_bones(d, p1, names, num_bones as nat) {
                    None => None,
                    Some((bones, p2)) => match sp_bone_hierarchies(d, p2, num_bones, num_bones as nat) {
                        None => None,
                        Some((bones_hierarchy, p3)) => match sp_u32le(d, p3) {
                            None => None,
                            Some((num_decls, p4)) => {
                                if !(p < p4 <= d.len()) {
                                    None
                                } else {
                                    match sp_decl_assets(d, p4, names, num_decls as nat) {
                                        None => None,
                                        Some((vertex_decls, p5)) => match sp_u32le(d, p5) {
                                            None => None,
                                            Some((num_meshes, p6)) => {
                                                if !(p < p6 <= d.len()) {
                                                    None
                                                } else {
                                                    match sp_meshes(d, p6, names, num_meshes as nat) {
                                                        None => None,
                                                        Some((meshes, p7)) => match sp_bone_ref(
                                                            d,
                                                            p7,
                                                            num_bones,
                                                        ) {
                                                            None => None,
                                                            Some((root_bone_ref, p8)) => match
                                                                sp_u8(d, p8) {
                                                                None => None,
                                                                Some((tag, p9)) => Some(
                                                                    (
                                                                        ModelV {
                                                                            bones,
                                                                            bones_hierarchy,
                                                                            vertex_decls,
                                                                            meshes,
                                                                            root_bone_ref,
                                                                            tag,
                                                                        },
                                                                        p9,
                                                                    ),
                                                                ),
                                                            },
                                                        },
                                                    }
                                                }
                                            },
                                        },
                                    }
                                }
                            },
                        },
                    },
                }
            }
        },
    }
}

impl Model {
    #[verifier::rlimit(100)]
    pub fn read(rd: &mut Reader, type_readers: &[TypeReader]) -> (r: Result<Model, DecodeError>)
        requires
            old(rd).wf(),
        ensures
            final(rd).wf(),
            final(rd).data@ == old(rd).data@,
            match r {
                Ok(v) => sp_model(old(rd).data@, old(rd).pos as int, sp_names(type_readers@))
                    == Some((v@, final(rd).pos as int)) && final(rd).pos > old(rd).pos,
                Err(_) => sp_model(old(rd).data@, old(rd).pos as int, sp_names(type_readers@))
                    is None,
            },
    decreases old(rd).data@.len() - old(rd).pos, 0int,
    {
        let num_bones = match rd.read_u32le() {
            Ok(v) => v,
            Err(e) => {
                return Err(e);
            },
        };
        let bones = match read_bones(rd, type_readers, num_bones) {
            Ok(v) => v,
            Err(e) => {
                return Err(e);
            },
        };
        let bones_hierarchy = match read_bone_hierarchies(rd, num_bones, num_bones) {
            Ok(v) => v,
            Err(e) => {
                return Err(e);
            },
        };
        let num_decls = match rd.read_u32le() {
            Ok(v) => v,
            Err(e) => {
                return Err(e);
            },
        };
        let vertex_decls = match read_decl_assets(rd, type_readers, num_decls) {
            Ok(v) => v,
            Err(e) => {
                return Err(e);
            },
        };
        let num_meshes = match rd.read_u32le() {
            Ok(v) => v,
            Err(e) => {
                return Err(e);
            },
        };
        let meshes = match read_meshes(rd, type_readers, num_meshes) {
            Ok(v) => v,
            Err(e) => {
                return Err(e);
            },
        };
        let root_bone_ref = match read_bone_ref(rd, num_bones) {
            Ok(v) => v,
            Err(e) => {
                return Err(e);
            },
        };
        let tag = match rd.read_u8() {
            Ok(v) => v,
            Err(e) => {
                return Err(e);
            },
        };
        Ok(Model { bones, bones_hierarchy, vertex_decls, meshes, root_bone_ref, tag })
    }
}

} // verus!

use vstd::prelude::*;

use crate::err::DecodeError;
use crate::reader::{sp_f32bits, Reader};

verus! {

// The fixed-size math values of the format. Every component is an IEEE 754
// single carried as its little-endian 32-bit pattern; the library never
// interprets the bits arithmetically, so the fields are the raw patterns.

/// A two-component vector (x, y), each field an IEEE single's bit pattern.
#[derive(Debug, Clone, Copy, PartialEq, Eq, Structural)]
pub struct Vec2 {
    pub x: u32,
    pub y: u32,
}

/// A three-component vector (x, y, z), each field an IEEE single's bit
/// pattern.
#[derive(Debug, Clone, Copy, PartialEq, Eq, Structural)]
pub struct Vec3 {
    pub x: u32,
    pub y: u32,
    pub z: u32,
}

/// A quaternion (x, y, z, w), each field an IEEE single's bit pattern.
#[derive(Debug, Clone, Copy, PartialEq, Eq, Structural)]
pub struct Quat {
    pub x: u32,
    pub y: u32,
    pub z: u32,
    pub w: u32,
}

/// One row of a 4x4 matrix, each field an IEEE single's bit pattern.
#[derive(Debug, Clone, Copy, PartialEq, Eq, Structural)]
pub struct Mat4Row {
    pub c0: u32,
    pub c1: u32,
    pub c2: u32,
    pub c3: u32,
}

/// A 4x4 matrix as sixteen consecutive IEEE singles, row-major.
#[derive(Debug, Clone, Copy, PartialEq, Eq, Structural)]
pub struct Mat4 {
    pub r0: Mat4Row,
    pub r1: Mat4Row,
    pub r2: Mat4Row,
    pub r3: Mat4Row,
}

pub open spec fn sp_vec2(d: Seq<u8>, p: int) -> Option<(Vec2, int)> {
    match sp_f32bits(d, p) {
        None => None,
        Some((x, p1)) => match sp_f32bits(d, p1) {
            None => None,
            Some((y, p2)) => Some((Vec2 { x, y }, p2)),
        },
    }
}

pub open spec fn sp_vec3(d: Seq<u8>, p: int) -> Option<(Vec3, int)> {
    match sp_f32bits(d, p) {
        None => None,
        Some((x, p1)) => match sp_f32bits(d, p1) {
            None => None,
            Some((y, p2)) => match sp_f32bits(d, p2) {
                None => None,
                Some((z, p3)) => Some((Vec3 { x, y, z }, p3)),
            },
        },
    }
}

pub open spec fn sp_quat(d: Seq<u8>, p: int) -> Option<(Quat, int)> {
    match sp_f32bits(d, p) {
        None => None,
        Some((x, p1)) => match sp_f32bits(d, p1) {
            None => None,
            Some((y, p2)) => match sp_f32bits(d, p2) {
                None => None,
                Some((z, p3)) => match sp_f32bits(d, p3) {
                    None => None,
                    Some((w, p4)) => Some((Quat { x, y, z, w }, p4)),
                },
            },
        },
    }
}

pub open spec fn sp_mat4_row(d: Seq<u8>, p: int) -> Option<(Mat4Row, int)> {
    match sp_f32bits(d, p) {
        None => None,
        Some((c0, p1)) => match sp_f32bits(d, p1) {
            None => None,
            Some((c1, p2)) => match sp_f32bits(d, p2) {
                None => None,
                Some((c2, p3)) => match sp_f32bits(d, p3) {
                    None => None,
                    Some((c3, p4)) => Some((Mat4Row { c0, c1, c2, c3 }, p4)),
                },
            },
        },
    }
}

pub open spec fn sp_mat4(d: Seq<u8>, p: int) -> Option<(Mat4, int)> {
    match sp_mat4_row(d, p) {
        None => None,
        Some((r0, p1)) => match sp_mat4_row(d, p1) {
            None => None,
            Some((r1, p2)) => match sp_mat4_row(d, p2) {
                None => None,
                Some((r2, p3)) => match sp_mat4_row(d, p3) {
                    None => None,
                    Some((r3, p4)) => Some((Mat4 { r0, r1, r2, r3 }, p4)),
                },
            },
        },
    }
}

impl<'a> Reader<'a> {
    pub fn read_vec2(&mut self) -> (r: Result<Vec2, DecodeError>)
        requires
            old(self).wf(),
        ensures
            final(self).wf(),
            final(self).data@ == old(self).data@,
            match r {
                Ok(v) => sp_vec2(old(self).data@, old(self).pos as int) == Some(
                    (v, final(self).pos as int),
                ),
                Err(_) => sp_vec2(old(self).data@, old(self).pos as int) is None,
            },
    {
        let x = match self.read_f32bits() {
            Ok(v) => v,
            Err(e) => {
                return Err(e);
            },
        };
        let y = match self.read_f32bits() {
            Ok(v) => v,
            Err(e) => {
                return Err(e);
            },
        };
        Ok(Vec2 { x, y })
    }

    pub fn read_vec3(&mut self) -> (r: Result<Vec3, DecodeError>)
        requires
            old(self).wf(),
        ensures
            final(self).wf(),
            final(self).data@ == old(self).data@,
            match r {
                Ok(v) => sp_vec3(old(self).data@, old(self).pos as int) == Some(
                    (v, final(self).pos as int),
                ),
                Err(_) => sp_vec3(old(self).data@, old(self).pos as int) is None,
            },
    {
        let x = match self.read_f32bits() {
            Ok(v) => v,
            Err(e) => {
                return Err(e);
            },
        };
        let y = match self.read_f32bits() {
            Ok(v) => v,
            Err(e) => {
                return Err(e);
            },
        };
        let z = match self.read_f32bits() {
            Ok(v) => v,
            Err(e) => {
                return Err(e);
            },
        };
        Ok(Vec3 { x, y, z })
    }

    pub fn read_quat(&mut self) -> (r: Result<Quat, DecodeError>)
        requires
            old(self).wf(),
        ensures
            final(self).wf(),
            final(self).data@ == old(self).data@,
            match r {
                Ok(v) => sp_quat(old(self).data@, old(self).pos as int) == Some(
                    (v, final(self).pos as int),
                ),
                Err(_) => sp_quat(old(self).data@, old(self).pos as int) is None,
            },
    {
        let x = match self.read_f32bits() {
            Ok(v) => v,
            Err(e) => {
                return Err(e);
            },
        };
        let y = match self.read_f32bits() {
            Ok(v) => v,
            Err(e) => {
                return Err(e);
            },
        };
        let z = match self.read_f32bits() {
            Ok(v) => v,
            Err(e) => {
                return Err(e);
            },
        };
        let w = match self.read_f32bits() {
            Ok(v) => v,
            Err(e) => {
                return Err(e);
            },
        };
        Ok(Quat { x, y, z, w })
    }

    pub fn read_mat4_row(&mut self) -> (r: Result<Mat4Row, DecodeError>)
        requires
            old(self).wf(),
        ensures
            final(self).wf(),
            final(self).data@ == old(self).data@,
            match r {
                Ok(v) => sp_mat4_row(old(self).data@, old(self).pos as int) == Some(
                    (v, final(self).pos as int),
                ),
                Err(_) => sp_mat4_row(old(self).data@, old(self).pos as int) is None,
            },
    {
        let c0 = match self.read_f32bits() {
            Ok(v) => v,
            Err(e) => {
                return Err(e);
            },
        };
        let c1 = match self.read_f32bits() {
            Ok(v) => v,
            Err(e) => {
                return Err(e);
            },
        };
        let c2 = match self.read_f32bits() {
            Ok(v) => v,
            Err(e) => {
                return Err(e);
            },
        };
        let c3 = match self.read_f32bits() {
            Ok(v) => v,
            Err(e) => {
                return Err(e);
            },
        };
        Ok(Mat4Row { c0, c1, c2, c3 })
    }

    pub fn read_mat4(&mut self) -> (r: Result<Mat4, DecodeError>)
        requires
            old(self).wf(),
        ensures
            final(self).wf(),
            final(self).data@ == old(self).data@,
            match r {
                Ok(v) => sp_mat4(old(self).data@, old(self).pos as int) == Some(
                    (v, final(self).pos as int),
                ),
                Err(_) => sp_mat4(old(self).data@, old(self).pos as int) is None,
            },
    {
        let r0 = match self.read_mat4_row() {
            Ok(v) => v,
            Err(e) => {
                return Err(e);
            },
        };
        let r1 = match self.read_mat4_row() {
            Ok(v) => v,
            Err(e) => {
                return Err(e);
            },
        };
        let r2 = match self.read_mat4_row() {
            Ok(v) => v,
            Err(e) => {
                return Err(e);
            },
        };
        let r3 = match self.read_mat4_row() {
            Ok(v) => v,
            Err(e) => {
                return Err(e);
            },
        };
        Ok(Mat4 { r0, r1, r2, r3 })
    }
}

} // verus!

use vstd::prelude::*;

use crate::err::DecodeError;
use crate::reader::{sp_u32le, Reader};
use crate::xnb::asset::texture_2d::{read_mips, sp_mips, sp_pixel_format_of, PixelFormat};

verus! {

/// A three-dimensional texture: pixel format, base dimensions including
/// depth, and the raw bytes of each mip level.
#[derive(Debug, Clone, PartialEq, Eq)]
pub struct Texture3D {
    pub format: PixelFormat,
    pub width: u32,
    pub height: u32,
    pub depth: u32,
    pub mips: Vec<Vec<u8>>,
}

pub struct Texture3DV {
    pub format: PixelFormat,
    pub width: u32,
    pub height: u32,
    pub depth: u32,
    pub mips: Seq<Seq<u8>>,
}

impl View for Texture3D {
    type V = Texture3DV;

    open spec fn view(&self) -> Texture3DV {
        Texture3DV {
            format: self.format,
            width: self.width,
            height: self.height,
            depth: self.depth,
            mips: self.mips@.map_values(|m: Vec<u8>| m@),
        }
    }
}

pub open spec fn sp_texture3d(d: Seq<u8>, p: int) -> Option<(Texture3DV, int)> {
    match sp_u32le(d, p) {
        None => None,
        Some((code, p1)) => match sp_pixel_format_of(code) {
            None => None,
            Some(format) => match sp_u32le(d, p1) {
                None => None,
                Some((width, p2)) => match sp_u32le(d, p2) {
                    None => None,
                    Some((height, p3)) => match sp_u32le(d, p3) {
                        None => None,
                        Some((depth, p4)) => match sp_u32le(d, p4) {
                            None => None,
                            Some((mip_count, p5)) => match sp_mips(d, p5, mip_count as nat) {
                                None => None,
                                Some((mips, p6)) => Some(
                                    (Texture3DV { format, width, height, depth, mips }, p6),
                                ),
                            },
                        },
                    },
                },
            },
        },
    }
}

impl Texture3D {
    pub fn read(rd: &mut Reader) -> (r: Result<Texture3D, DecodeError>)
        requires
            old(rd).wf(),
        ensures
            final(rd).wf(),
            final(rd).data@ == old(rd).data@,
            match r {
                Ok(v) => sp_texture3d(old(rd).data@, old(rd).pos as int) == Some(
                    (v@, final(rd).pos as int),
                ) && final(rd).pos >= old(rd).pos,
                Err(_) => sp_texture3d(old(rd).data@, old(rd).pos as int) is None,
            },
    {
        let code = match rd.read_u32le() {
            Ok(v) => v,
            Err(e) => {
                return Err(e);
            },
        };
        let format = if code == 1 {
            PixelFormat::Color
        } else if code == 28 {
            PixelFormat::Bc1
        } else if code == 32 {
            PixelFormat::Bc3
        } else {
            return Err(DecodeError::UnknownPixelFormat(code));
        };
        let width = match rd.read_u32le() {
            Ok(v) => v,
            Err(e) => {
                return Err(e);
            },
        };
        let height = match rd.read_u32le() {
            Ok(v) => v,
            Err(e) => {
                return Err(e);
            },
        };
        let depth = match rd.read_u32le() {
            Ok(v) => v,
            Err(e) => {
                return Err(e);
            },
        };
        let mip_count = match rd.read_u32le() {
            Ok(v) => v,
            Err(e) => {
                return Err(e);
            },
        };
        let mips = match read_mips(rd, mip_count) {
            Ok(v) => v,
            Err(e) => {
                return Err(e);
            },
        };
        Ok(Texture3D { format, width, height, depth, mips })
    }
}

} // verus!

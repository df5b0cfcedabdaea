use vstd::prelude::*;

use crate::err::DecodeError;
use crate::reader::{sp_f32bits, Reader};

verus! {

/// An RGB color of three consecutive IEEE singles, each field the raw bit
/// pattern.
#[derive(Debug, Clone, Copy, PartialEq, Eq, Structural)]
pub struct Color {
    pub r: u32,
    pub g: u32,
    pub b: u32,
}

pub open spec fn sp_color(d: Seq<u8>, p: int) -> Option<(Color, int)> {
    match sp_f32bits(d, p) {
        None => None,
        Some((r, p1)) => match sp_f32bits(d, p1) {
            None => None,
            Some((g, p2)) => match sp_f32bits(d, p2) {
                None => None,
                Some((b, p3)) => Some((Color { r, g, b }, p3)),
            },
        },
    }
}

impl Color {
    pub fn read(rd: &mut Reader) -> (r: Result<Color, DecodeError>)
        requires
            old(rd).wf(),
        ensures
            final(rd).wf(),
            final(rd).data@ == old(rd).data@,
            match r {
                Ok(v) => sp_color(old(rd).data@, old(rd).pos as int) == Some(
                    (v, final(rd).pos as int),
                ),
                Err(_) => sp_color(old(rd).data@, old(rd).pos as int) is None,
            },
    {
        let cr = match rd.read_f32bits() {
            Ok(v) => v,
            Err(e) => {
                return Err(e);
            },
        };
        let cg = match rd.read_f32bits() {
            Ok(v) => v,
            Err(e) => {
                return Err(e);
            },
        };
        let cb = match rd.read_f32bits() {
            Ok(v) => v,
            Err(e) => {
                return Err(e);
            },
        };
        Ok(Color { r: cr, g: cg, b: cb })
    }
}

} // verus!

use vstd::prelude::*;

use crate::err::DecodeError;
use crate::reader::{sp_bool, sp_string, Reader};
use crate::xnb::asset::color::{sp_color, Color};

verus! {

/// Additive-blend material: a color tint, two feature flags, and a texture
/// path.
#[derive(Debug, Clone, PartialEq, Eq)]
pub struct AdditiveEffect {
    pub color_tint: Color,
    pub vertex_color_enabled: bool,
    pub texture_enabled: bool,
    pub texture: String,
}

pub struct AdditiveEffectV {
    pub color_tint: Color,
    pub vertex_color_enabled: bool,
    pub texture_enabled: bool,
    pub texture: Seq<char>,
}

impl View for AdditiveEffect {
    type V = AdditiveEffectV;

    open spec fn view(&self) -> AdditiveEffectV {
        AdditiveEffectV {
            color_tint: self.color_tint,
            vertex_color_enabled: self.vertex_color_enabled,
            texture_enabled: self.texture_enabled,
            texture: self.texture@,
        }
    }
}

pub open spec fn sp_additive_effect(d: Seq<u8>, p: int) -> Option<(AdditiveEffectV, int)> {
    match sp_color(d, p) {
        None => None,
        Some((color_tint, p1)) => match sp_bool(d, p1) {
            None => None,
            Some((vertex_color_enabled, p2)) => match sp_bool(d, p2) {
                None => None,
                Some((texture_enabled, p3)) => match sp_string(d, p3) {
                    None => None,
                    Some((texture, p4)) => Some(
                        (
                            AdditiveEffectV {
                                color_tint,
                                vertex_color_enabled,
                                texture_enabled,
                                texture,
                            },
                            p4,
                        ),
                    ),
                },
            },
        },
    }
}

impl AdditiveEffect {
    pub fn read(rd: &mut Reader) -> (r: Result<AdditiveEffect, DecodeError>)
        requires
            old(rd).wf(),
        ensures
            final(rd).wf(),
            final(rd).data@ == old(rd).data@,
            match r {
                Ok(v) => sp_additive_effect(old(rd).data@, old(rd).pos as int) == Some(
                    (v@, final(rd).pos as int),
                ) && final(rd).pos > old(rd).pos,
                Err(_) => sp_additive_effect(old(rd).data@, old(rd).pos as int) is None,
            },
    {
        let color_tint = match Color::read(rd) {
            Ok(v) => v,
            Err(e) => {
                return Err(e);
            },
        };
        let vertex_color_enabled = match rd.read_bool() {
            Ok(v) => v,
            Err(e) => {
                return Err(e);
            },
        };
        let texture_enabled = match rd.read_bool() {
            Ok(v) => v,
            Err(e) => {
                return Err(e);
            },
        };
        let texture = match rd.read_string() {
            Ok(v) => v,
            Err(e) => {
                return Err(e);
            },
        };
        Ok(AdditiveEffect { color_tint, vertex_color_enabled, texture_enabled, texture })
    }
}

} // verus!

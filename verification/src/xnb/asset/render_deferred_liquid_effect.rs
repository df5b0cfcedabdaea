use vstd::prelude::*;

use crate::err::DecodeError;
use crate::reader::{sp_f32bits, sp_string, Reader};
use crate::xnb::asset::color::{sp_color, Color};
use crate::xnb::asset::math::{sp_vec2, Vec2};

verus! {

/// Liquid-surface material: wave, water, and ice parameters with their
/// texture paths.
#[derive(Debug, Clone, PartialEq, Eq)]
pub struct RenderDeferredLiquidEffect {
    pub reflection_map: String,
    pub wave_height: u32,
    pub wave_speed_0: Vec2,
    pub wave_speed_1: Vec2,
    pub water_reflectiveness: u32,
    pub bottom_color: Color,
    pub deep_bottom_color: Color,
    pub water_emissive_amount: u32,
    pub water_spec_amount: u32,
    pub water_spec_power: u32,
    pub bottom_texture: String,
    pub water_normal_map: String,
    pub ice_reflectiveness: u32,
    pub ice_color: Color,
    pub ice_emissive_amount: u32,
    pub ice_spec_amount: u32,
    pub ice_spec_power: u32,
    pub ice_diffuse_map: String,
    pub ice_normal_map: String,
}

pub struct RenderDeferredLiquidEffectV {
    pub reflection_map: Seq<char>,
    pub wave_height: u32,
    pub wave_speed_0: Vec2,
    pub wave_speed_1: Vec2,
    pub water_reflectiveness: u32,
    pub bottom_color: Color,
    pub deep_bottom_color: Color,
    pub water_emissive_amount: u32,
    pub water_spec_amount: u32,
    pub water_spec_power: u32,
    pub bottom_texture: Seq<char>,
    pub water_normal_map: Seq<char>,
    pub ice_reflectiveness: u32,
    pub ice_color: Color,
    pub ice_emissive_amount: u32,
    pub ice_spec_amount: u32,
    pub ice_spec_power: u32,
    pub ice_diffuse_map: Seq<char>,
    pub ice_normal_map: Seq<char>,
}

impl View for RenderDeferredLiquidEffect {
    type V = RenderDeferredLiquidEffectV;

    open spec fn view(&self) -> RenderDeferredLiquidEffectV {
        RenderDeferredLiquidEffectV {
            reflection_map: self.reflection_map@,
            wave_height: self.wave_height,
            wave_speed_0: self.wave_speed_0,
            wave_speed_1: self.wave_speed_1,
            water_reflectiveness: self.water_reflectiveness,
            bottom_color: self.bottom_color,
            deep_bottom_color: self.deep_bottom_color,
            water_emissive_amount: self.water_emissive_amount,
            water_spec_amount: self.water_spec_amount,
            water_spec_power: self.water_spec_power,
            bottom_texture: self.bottom_texture@,
            water_normal_map: self.water_normal_map@,
            ice_reflectiveness: self.ice_reflectiveness,
            ice_color: self.ice_color,
            ice_emissive_amount: self.ice_emissive_amount,
            ice_spec_amount: self.ice_spec_amount,
            ice_spec_power: self.ice_spec_power,
            ice_diffuse_map: self.ice_diffuse_map@,
            ice_normal_map: self.ice_normal_map@,
        }
    }
}

pub open spec fn sp_rdle(d: Seq<u8>, p: int) -> Option<(RenderDeferredLiquidEffectV, int)> {
    match sp_string(d, p) {
        None => None,
        Some((reflection_map, p1)) => match sp_f32bits(d, p1) {
            None => None,
            Some((wave_height, p2)) => match sp_vec2(d, p2) {
                None => None,
                Some((wave_speed_0, p3)) => match sp_vec2(d, p3) {
                    None => None,
                    Some((wave_speed_1, p4)) => match sp_f32bits(d, p4) {
                        None => None,
                        Some((water_reflectiveness, p5)) => match sp_color(d, p5) {
                            None => None,
                            Some((bottom_color, p6)) => match sp_color(d, p6) {
                                None => None,
                                Some((deep_bottom_color, p7)) => match sp_f32bits(d, p7) {
                                    None => None,
                                    Some((water_emissive_amount, p8)) => match sp_f32bits(d, p8) {
                                        None => None,
                                        Some((water_spec_amount, p9)) => match sp_f32bits(d, p9) {
                                            None => None,
                                            Some((water_spec_power, p10)) => match sp_string(
                                                d,
                                                p10,
                                            ) {
                                                None => None,
                                                Some((bottom_texture, p11)) => match sp_string(
                                                    d,
                                                    p11,
                                                ) {
                                                    None => None,
                                                    Some((water_normal_map, p12)) => sp_rdle_rest(
                                                        d,
                                                        p12,
                                                        RenderDeferredLiquidEffectV {
                                                            reflection_map,
                                                            wave_height,
                                                            wave_speed_0,
                                                            wave_speed_1,
                                                            water_reflectiveness,
                                                            bottom_color,
                                                            deep_bottom_color,
                                                            water_emissive_amount,
                                                            water_spec_amount,
                                                            water_spec_power,
                                                            bottom_texture,
                                                            water_normal_map,
                                                            ice_reflectiveness: 0,
                                                            ice_color: Color { r: 0, g: 0, b: 0 },
                                                            ice_emissive_amount: 0,
                                                            ice_spec_amount: 0,
                                                            ice_spec_power: 0,
                                                            ice_diffuse_map: Seq::empty(),
                                                            ice_normal_map: Seq::empty(),
                                                        },
                                                    ),
                                                },
                                            },
                                        },
                                    },
                                },
                            },
                        },
                    },
                },
            },
        },
    }
}

/// The ice fields of the liquid material, continuing a partially-filled
/// value.
pub open spec fn sp_rdle_rest(d: Seq<u8>, p: int, acc: RenderDeferredLiquidEffectV) -> Option<
    (RenderDeferredLiquidEffectV, int),
> {
    match sp_f32bits(d, p) {
        None => None,
        Some((ice_reflectiveness, p1)) => match sp_color(d, p1) {
            None => None,
            Some((ice_color, p2)) => match sp_f32bits(d, p2) {
                None => None,
                Some((ice_emissive_amount, p3)) => match sp_f32bits(d, p3) {
                    None => None,
                    Some((ice_spec_amount, p4)) => match sp_f32bits(d, p4) {
                        None => None,
                        Some((ice_spec_power, p5)) => match sp_string(d, p5) {
                            None => None,
                            Some((ice_diffuse_map, p6)) => match sp_string(d, p6) {
                                None => None,
                                Some((ice_normal_map, p7)) => Some(
                                    (
                                        RenderDeferredLiquidEffectV {
                                            ice_reflectiveness,
                                            ice_color,
                                            ice_emissive_amount,
                                            ice_spec_amount,
                                            ice_spec_power,
                                            ice_diffuse_map,
                                            ice_normal_map,
                                            ..acc
                                        },
                                        p7,
                                    ),
                                ),
                            },
                        },
                    },
                },
            },
        },
    }
}

impl RenderDeferredLiquidEffect {
    pub fn read(rd: &mut Reader) -> (r: Result<RenderDeferredLiquidEffect, DecodeError>)
        requires
            old(rd).wf(),
        ensures
            final(rd).wf(),
            final(rd).data@ == old(rd).data@,
            match r {
                Ok(v) => sp_rdle(old(rd).data@, old(rd).pos as int) == Some(
                    (v@, final(rd).pos as int),
                ) && final(rd).pos > old(rd).pos,
                Err(_) => sp_rdle(old(rd).data@, old(rd).pos as int) is None,
            },
    {
        let reflection_map = match rd.read_string() {
            Ok(v) => v,
            Err(e) => {
                return Err(e);
            },
        };
        let wave_height = match rd.read_f32bits() {
            Ok(v) => v,
            Err(e) => {
                return Err(e);
            },
        };
        let wave_speed_0 = match rd.read_vec2() {
            Ok(v) => v,
            Err(e) => {
                return Err(e);
            },
        };
        let wave_speed_1 = match rd.read_vec2() {
            Ok(v) => v,
            Err(e) => {
                return Err(e);
            },
        };
        let water_reflectiveness = match rd.read_f32bits() {
            Ok(v) => v,
            Err(e) => {
                return Err(e);
            },
        };
        let bottom_color = match Color::read(rd) {
            Ok(v) => v,
            Err(e) => {
                return Err(e);
            },
        };
        let deep_bottom_color = match Color::read(rd) {
            Ok(v) => v,
            Err(e) => {
                return Err(e);
            },
        };
        let water_emissive_amount = match rd.read_f32bits() {
            Ok(v) => v,
            Err(e) => {
                return Err(e);
            },
        };
        let water_spec_amount = match rd.read_f32bits() {
            Ok(v) => v,
            Err(e) => {
                return Err(e);
            },
        };
        let water_spec_power = match rd.read_f32bits() {
            Ok(v) => v,
            Err(e) => {
                return Err(e);
            },
        };
        let bottom_texture = match rd.read_string() {
            Ok(v) => v,
            Err(e) => {
                return Err(e);
            },
        };
        let water_normal_map = match rd.read_string() {
            Ok(v) => v,
            Err(e) => {
                return Err(e);
            },
        };
        let ice_reflectiveness = match rd.read_f32bits() {
            Ok(v) => v,
            Err(e) => {
                return Err(e);
            },
        };
        let ice_color = match Color::read(rd) {
            Ok(v) => v,
            Err(e) => {
                return Err(e);
            },
        };
        let ice_emissive_amount = match rd.read_f32bits() {
            Ok(v) => v,
            Err(e) => {
                return Err(e);
            },
        };
        let ice_spec_amount = match rd.read_f32bits() {
            Ok(v) => v,
            Err(e) => {
                return Err(e);
            },
        };
        let ice_spec_power = match rd.read_f32bits() {
            Ok(v) => v,
            Err(e) => {
                return Err(e);
            },
        };
        let ice_diffuse_map = match rd.read_string() {
            Ok(v) => v,
            Err(e) => {
                return Err(e);
            },
        };
        let ice_normal_map = match rd.read_string() {
            Ok(v) => v,
            Err(e) => {
                return Err(e);
            },
        };
        Ok(
            RenderDeferredLiquidEffect {
                reflection_map,
                wave_height,
                wave_speed_0,
                wave_speed_1,
                water_reflectiveness,
                bottom_color,
                deep_bottom_color,
                water_emissive_amount,
                water_spec_amount,
                water_spec_power,
                bottom_texture,
                water_normal_map,
                ice_reflectiveness,
                ice_color,
                ice_emissive_amount,
                ice_spec_amount,
                ice_spec_power,
                ice_diffuse_map,
                ice_normal_map,
            },
        )
    }
}

} // verus!

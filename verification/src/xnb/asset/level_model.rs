use vstd::prelude::*;

use crate::err::DecodeError;
use crate::reader::{sp_bool, sp_f32bits, sp_i32le, sp_string, sp_u16le, sp_u32le, sp_u8,
    sp_varint, Reader};
use crate::strutil::{sp_starts_with, str_starts_with};
use crate::xnb::asset::animation::{sp_animation_channel, sp_count, AnimationChannel,
    AnimationChannelV};
use crate::xnb::asset::bi_tree_model::{sp_bi_tree_model, BiTreeModel, BiTreeModelV};
use crate::xnb::asset::color::{sp_color, Color};
use crate::xnb::asset::index_buffer::{sp_index_buffer, IndexBuffer, IndexBufferV};
use crate::xnb::asset::math::{sp_mat4, sp_quat, sp_vec3, Mat4, Quat, Vec3};
use crate::xnb::asset::model::{Model, ModelV};
use crate::xnb::asset::vertex_buffer::{VertexBuffer, VertexBufferV};
use crate::xnb::asset::vertex_decl::{VertexDeclaration, VertexDeclarationV};
use crate::xnb::asset::{sp_asset, sp_names, AssetV, XnbAsset};
use crate::xnb::TypeReader;

verus! {

// ---------------------------------------------------------------- enums --

/// Surface material of a collision mesh.
#[derive(Debug, Clone, Copy, PartialEq, Eq, Structural)]
pub enum CollisionMaterial {
    Generic,
    Gravel,
    Grass,
    Wood,
    Snow,
    Stone,
    Mud,
    Reflect,
    Water,
    Lava,
}

pub open spec fn sp_collision_material_of(b: u8) -> Option<CollisionMaterial> {
    if b == 0 {
        Some(CollisionMaterial::Generic)
    } else if b == 1 {
        Some(CollisionMaterial::Gravel)
    } else if b == 2 {
        Some(CollisionMaterial::Grass)
    } else if b == 3 {
        Some(CollisionMaterial::Wood)
    } else if b == 4 {
        Some(CollisionMaterial::Snow)
    } else if b == 5 {
        Some(CollisionMaterial::Stone)
    } else if b == 6 {
        Some(CollisionMaterial::Mud)
    } else if b == 7 {
        Some(CollisionMaterial::Reflect)
    } else if b == 8 {
        Some(CollisionMaterial::Water)
    } else if b == 9 {
        Some(CollisionMaterial::Lava)
    } else {
        None
    }
}

impl CollisionMaterial {
    pub fn read(rd: &mut Reader) -> (r: Result<CollisionMaterial, DecodeError>)
        requires
            old(rd).wf(),
        ensures
            final(rd).wf(),
            final(rd).data@ == old(rd).data@,
            match r {
                Ok(v) => sp_u8(old(rd).data@, old(rd).pos as int) matches Some((b, p1))
                    && sp_collision_material_of(b) == Some(v) && final(rd).pos == p1
                    && final(rd).pos > old(rd).pos,
                Err(e) => {
                    match sp_u8(old(rd).data@, old(rd).pos as int) {
                        None => e == DecodeError::Truncated,
                        Some((b, _)) => sp_collision_material_of(b) is None && e
                            == DecodeError::UnknownCollisionMaterial(b),
                    }
                },
            },
    {
        let b = match rd.read_u8() {
            Ok(v) => v,
            Err(e) => {
                return Err(e);
            },
        };
        match b {
            0 => Ok(CollisionMaterial::Generic),
            1 => Ok(CollisionMaterial::Gravel),
            2 => Ok(CollisionMaterial::Grass),
            3 => Ok(CollisionMaterial::Wood),
            4 => Ok(CollisionMaterial::Snow),
            5 => Ok(CollisionMaterial::Stone),
            6 => Ok(CollisionMaterial::Mud),
            7 => Ok(CollisionMaterial::Reflect),
            8 => Ok(CollisionMaterial::Water),
            9 => Ok(CollisionMaterial::Lava),
            _ => Err(DecodeError::UnknownCollisionMaterial(b)),
        }
    }
}

/// The closed bit set of traversal properties a navigation triangle can
/// carry; a byte with bits outside the declared set is rejected.
#[derive(Debug, Clone, Copy, PartialEq, Eq, Structural)]
pub struct MovementProperties {
    pub bits: u8,
}

impl MovementProperties {
    pub fn water(self) -> (r: bool)
        ensures
            r == (self.bits & 1 != 0),
    {
        self.bits & 1 != 0
    }

    pub fn jump(self) -> (r: bool)
        ensures
            r == (self.bits & 2 != 0),
    {
        self.bits & 2 != 0
    }

    pub fn fly(self) -> (r: bool)
        ensures
            r == (self.bits & 4 != 0),
    {
        self.bits & 4 != 0
    }

    pub fn dynamic(self) -> (r: bool)
        ensures
            r == (self.bits & 128 != 0),
    {
        self.bits & 128 != 0
    }

    pub fn read(rd: &mut Reader) -> (r: Result<MovementProperties, DecodeError>)
        requires
            old(rd).wf(),
        ensures
            final(rd).wf(),
            final(rd).data@ == old(rd).data@,
            match r {
                Ok(v) => sp_movement_properties(old(rd).data@, old(rd).pos as int) == Some(
                    (v, final(rd).pos as int),
                ) && final(rd).pos > old(rd).pos,
                Err(e) => {
                    match sp_u8(old(rd).data@, old(rd).pos as int) {
                        None => e == DecodeError::Truncated,
                        Some((b, _)) => b & 0x78 != 0 && e
                            == DecodeError::UnknownMovementProperties(b),
                    }
                },
            },
    {
        match rd.read_u8() {
            Ok(b) => {
                if b & 0x78 == 0 {
                    Ok(MovementProperties { bits: b })
                } else {
                    Err(DecodeError::UnknownMovementProperties(b))
                }
            },
            Err(e) => Err(e),
        }
    }
}

/// A movement byte is valid exactly when its bits stay inside the declared
/// flags (the low three and the high bit).
pub open spec fn sp_movement_properties(d: Seq<u8>, p: int) -> Option<(MovementProperties, int)> {
    match sp_u8(d, p) {
        None => None,
        Some((b, p1)) => {
            if b & 0x78 == 0 {
                Some((MovementProperties { bits: b }, p1))
            } else {
                None
            }
        },
    }
}

/// Kind of a placed light.
#[derive(Debug, Clone, Copy, PartialEq, Eq, Structural)]
pub enum LevelModelLightKind {
    Point,
    Directional,
    Spot,
    Custom,
}

/// The stored code is a 32-bit word; only the exact recognized codes are
/// accepted.
pub open spec fn sp_light_kind_of(v: u32) -> Option<LevelModelLightKind> {
    if v == 0 {
        Some(LevelModelLightKind::Point)
    } else if v == 1 {
        Some(LevelModelLightKind::Directional)
    } else if v == 2 {
        Some(LevelModelLightKind::Spot)
    } else if v == 10 {
        Some(LevelModelLightKind::Custom)
    } else {
        None
    }
}

impl LevelModelLightKind {
    pub fn read(rd: &mut Reader) -> (r: Result<LevelModelLightKind, DecodeError>)
        requires
            old(rd).wf(),
        ensures
            final(rd).wf(),
            final(rd).data@ == old(rd).data@,
            match r {
                Ok(v) => sp_u32le(old(rd).data@, old(rd).pos as int) matches Some((w, p1))
                    && sp_light_kind_of(w) == Some(v) && final(rd).pos == p1,
                Err(e) => {
                    match sp_u32le(old(rd).data@, old(rd).pos as int) {
                        None => e == DecodeError::Truncated,
                        Some((w, _)) => sp_light_kind_of(w) is None && e
                            == DecodeError::UnknownLightKind(w),
                    }
                },
            },
    {
        let w = match rd.read_u32le() {
            Ok(v) => v,
            Err(e) => {
                return Err(e);
            },
        };
        match w {
            0 => Ok(LevelModelLightKind::Point),
            1 => Ok(LevelModelLightKind::Directional),
            2 => Ok(LevelModelLightKind::Spot),
            10 => Ok(LevelModelLightKind::Custom),
            _ => Err(DecodeError::UnknownLightKind(w)),
        }
    }
}

/// Brightness variation of a placed light.
#[derive(Debug, Clone, Copy, PartialEq, Eq, Structural)]
pub enum LevelModelLightVariation {
    Steady,
    Sine,
    Flicker,
    Candle,
    Strobe,
}

pub open spec fn sp_light_variation_of(v: u32) -> Option<LevelModelLightVariation> {
    if v == 0 {
        Some(LevelModelLightVariation::Steady)
    } else if v == 1 {
        Some(LevelModelLightVariation::Sine)
    } else if v == 2 {
        Some(LevelModelLightVariation::Flicker)
    } else if v == 3 {
        Some(LevelModelLightVariation::Candle)
    } else if v == 4 {
        Some(LevelModelLightVariation::Strobe)
    } else {
        None
    }
}

impl LevelModelLightVariation {
    pub fn read(rd: &mut Reader) -> (r: Result<LevelModelLightVariation, DecodeError>)
        requires
            old(rd).wf(),
        ensures
            final(rd).wf(),
            final(rd).data@ == old(rd).data@,
            match r {
                Ok(v) => sp_u32le(old(rd).data@, old(rd).pos as int) matches Some((w, p1))
                    && sp_light_variation_of(w) == Some(v) && final(rd).pos == p1,
                Err(e) => {
                    match sp_u32le(old(rd).data@, old(rd).pos as int) {
                        None => e == DecodeError::Truncated,
                        Some((w, _)) => sp_light_variation_of(w) is None && e
                            == DecodeError::UnknownLightVariation(w),
                    }
                },
            },
    {
        let w = match rd.read_u32le() {
            Ok(v) => v,
            Err(e) => {
                return Err(e);
            },
        };
        match w {
            0 => Ok(LevelModelLightVariation::Steady),
            1 => Ok(LevelModelLightVariation::Sine),
            2 => Ok(LevelModelLightVariation::Flicker),
            3 => Ok(LevelModelLightVariation::Candle),
            4 => Ok(LevelModelLightVariation::Strobe),
            _ => Err(DecodeError::UnknownLightVariation(w)),
        }
    }
}

// ------------------------------------------------------- flat records --

/// A placed static light.
#[derive(Debug, Clone, PartialEq, Eq)]
pub struct LevelModelLight {
    pub name: String,
    pub position: Vec3,
    pub direction: Vec3,
    pub kind: LevelModelLightKind,
    pub variation: LevelModelLightVariation,
    pub reach: u32,
    pub use_attenuation: bool,
    pub cutoff_angle: u32,
    pub sharpness: u32,
    pub diffuse_color: Color,
    pub ambient_color: Color,
    pub specular_amount: u32,
    pub variation_amount: u32,
    pub variation_speed: u32,
    pub shadow_map_size: i32,
    pub casts_shadows: bool,
}

pub struct LevelModelLightV {
    pub name: Seq<char>,
    pub position: Vec3,
    pub direction: Vec3,
    pub kind: LevelModelLightKind,
    pub variation: LevelModelLightVariation,
    pub reach: u32,
    pub use_attenuation: bool,
    pub cutoff_angle: u32,
    pub sharpness: u32,
    pub diffuse_color: Color,
    pub ambient_color: Color,
    pub specular_amount: u32,
    pub variation_amount: u32,
    pub variation_speed: u32,
    pub shadow_map_size: i32,
    pub casts_shadows: bool,
}

impl View for LevelModelLight {
    type V = LevelModelLightV;

    open spec fn view(&self) -> LevelModelLightV {
        LevelModelLightV {
            name: self.name@,
            position: self.position,
            direction: self.direction,
            kind: self.kind,
            variation: self.variation,
            reach: self.reach,
            use_attenuation: self.use_attenuation,
            cutoff_angle: self.cutoff_angle,
            sharpness: self.sharpness,
            diffuse_color: self.diffuse_color,
            ambient_color: self.ambient_color,
            specular_amount: self.specular_amount,
            variation_amount: self.variation_amount,
            variation_speed: self.variation_speed,
            shadow_map_size: self.shadow_map_size,
            casts_shadows: self.casts_shadows,
        }
    }
}

/// The serialized order carries the variation speed before the variation
/// amount.
pub open spec fn sp_light(d: Seq<u8>, p: int) -> Option<(LevelModelLightV, int)> {
    match sp_string(d, p) {
        None => None,
        Some((name, p1)) => match sp_vec3(d, p1) {
            None => None,
            Some((position, p2)) => match sp_vec3(d, p2) {
                None => None,
                Some((direction, p3)) => match sp_u32le(d, p3) {
                    None => None,
                    Some((kw, p4)) => match sp_light_kind_of(kw) {
                        None => None,
                        Some(kind) => match sp_u32le(d, p4) {
                            None => None,
                            Some((vw, p5)) => match sp_light_variation_of(vw) {
                                None => None,
                                Some(variation) => match sp_f32bits(d, p5) {
                                    None => None,
                                    Some((reach, p6)) => match sp_bool(d, p6) {
                                        None => None,
                                        Some((use_attenuation, p7)) => match sp_f32bits(d, p7) {
                                            None => None,
                                            Some((cutoff_angle, p8)) => match sp_f32bits(d, p8) {
                                                None => None,
                                                Some((sharpness, p9)) => match sp_color(d, p9) {
                                                    None => None,
                                                    Some((diffuse_color, p10)) => match sp_color(
                                                        d,
                                                        p10,
                                                    ) {
                                                        None => None,
                                                        Some((ambient_color, p11)) => sp_light_rest(
                                                            d,
                                                            p11,
                                                            LevelModelLightV {
                                                                name,
                                                                position,
                                                                direction,
                                                                kind,
                                                                variation,
                                                                reach,
                                                                use_attenuation,
                                                                cutoff_angle,
                                                                sharpness,
                                                                diffuse_color,
                                                                ambient_color,
                                                                specular_amount: 0,
                                                                variation_amount: 0,
                                                                variation_speed: 0,
                                                                shadow_map_size: 0,
                                                                casts_shadows: false,
                                                            },
                                                        ),
                                                    },
                                                },
                                            },
                                        },
                                    },
                                },
                            },
                        },
                    },
                },
            },
        },
    }
}

pub open spec fn sp_light_rest(d: Seq<u8>, p: int, acc: LevelModelLightV) -> Option<
    (LevelModelLightV, int),
> {
    match sp_f32bits(d, p) {
        None => None,
        Some((specular_amount, p1)) => match sp_f32bits(d, p1) {
            None => None,
            Some((variation_speed, p2)) => match sp_f32bits(d, p2) {
                None => None,
                Some((variation_amount, p3)) => match sp_i32le(d, p3) {
                    None => None,
                    Some((shadow_map_size, p4)) => match sp_bool(d, p4) {
                        None => None,
                        Some((casts_shadows, p5)) => Some(
                            (
                                LevelModelLightV {
                                    specular_amount,
                                    variation_speed,
                                    variation_amount,
                                    shadow_map_size,
                                    casts_shadows,
                                    ..acc
                                },
                                p5,
                            ),
                        ),
                    },
                },
            },
        },
    }
}

impl LevelModelLight {
    pub fn read(rd: &mut Reader) -> (r: Result<LevelModelLight, DecodeError>)
        requires
            old(rd).wf(),
        ensures
            final(rd).wf(),
            final(rd).data@ == old(rd).data@,
            match r {
                Ok(v) => sp_light(old(rd).data@, old(rd).pos as int) == Some(
                    (v@, final(rd).pos as int),
                ) && final(rd).pos > old(rd).pos,
                Err(_) => sp_light(old(rd).data@, old(rd).pos as int) is None,
            },
    {
        let name = match rd.read_string() {
            Ok(v) => v,
            Err(e) => {
                return Err(e);
            },
        };
        let position = match rd.read_vec3() {
            Ok(v) => v,
            Err(e) => {
                return Err(e);
            },
        };
        let direction = match rd.read_vec3() {
            Ok(v) => v,
            Err(e) => {
                return Err(e);
            },
        };
        let kind = match LevelModelLightKind::read(rd) {
            Ok(v) => v,
            Err(e) => {
                return Err(e);
            },
        };
        let variation = match LevelModelLightVariation::read(rd) {
            Ok(v) => v,
            Err(e) => {
                return Err(e);
            },
        };
        let reach = match rd.read_f32bits() {
            Ok(v) => v,
            Err(e) => {
                return Err(e);
            },
        };
        let use_attenuation = match rd.read_bool() {
            Ok(v) => v,
            Err(e) => {
                return Err(e);
            },
        };
        let cutoff_angle = match rd.read_f32bits() {
            Ok(v) => v,
            Err(e) => {
                return Err(e);
            },
        };
        let sharpness = match rd.read_f32bits() {
            Ok(v) => v,
            Err(e) => {
                return Err(e);
            },
        };
        let diffuse_color = match Color::read(rd) {
            Ok(v) => v,
            Err(e) => {
                return Err(e);
            },
        };
        let ambient_color = match Color::read(rd) {
            Ok(v) => v,
            Err(e) => {
                return Err(e);
            },
        };
        let specular_amount = match rd.read_f32bits() {
            Ok(v) => v,
            Err(e) => {
                return Err(e);
            },
        };
        let variation_speed = match rd.read_f32bits() {
            Ok(v) => v,
            Err(e) => {
                return Err(e);
            },
        };
        let variation_amount = match rd.read_f32bits() {
            Ok(v) => v,
            Err(e) => {
                return Err(e);
            },
        };
        let shadow_map_size = match rd.read_i32le() {
            Ok(v) => v,
            Err(e) => {
                return Err(e);
            },
        };
        let casts_shadows = match rd.read_bool() {
            Ok(v) => v,
            Err(e) => {
                return Err(e);
            },
        };
        Ok(
            LevelModelLight {
                name,
                position,
                direction,
                kind,
                variation,
                reach,
                use_attenuation,
                cutoff_angle,
                sharpness,
                diffuse_color,
                ambient_color,
                specular_amount,
                variation_amount,
                variation_speed,
                shadow_map_size,
                casts_shadows,
            },
        )
    }
}

/// A reference from an animated part to a light, by name and transform.
#[derive(Debug, Clone, PartialEq, Eq)]
pub struct LevelModelLightRef {
    pub name: String,
    pub transform: Mat4,
}

pub struct LevelModelLightRefV {
    pub name: Seq<char>,
    pub transform: Mat4,
}

impl View for LevelModelLightRef {
    type V = LevelModelLightRefV;

    open spec fn view(&self) -> LevelModelLightRefV {
        LevelModelLightRefV { name: self.name@, transform: self.transform }
    }
}

pub open spec fn sp_light_ref(d: Seq<u8>, p: int) -> Option<(LevelModelLightRefV, int)> {
    match sp_string(d, p) {
        None => None,
        Some((name, p1)) => match sp_mat4(d, p1) {
            None => None,
            Some((transform, p2)) => Some((LevelModelLightRefV { name, transform }, p2)),
        },
    }
}

impl LevelModelLightRef {
    pub fn read(rd: &mut Reader) -> (r: Result<LevelModelLightRef, DecodeError>)
        requires
            old(rd).wf(),
        ensures
            final(rd).wf(),
            final(rd).data@ == old(rd).data@,
            match r {
                Ok(v) => sp_light_ref(old(rd).data@, old(rd).pos as int) == Some(
                    (v@, final(rd).pos as int),
                ) && final(rd).pos > old(rd).pos,
                Err(_) => sp_light_ref(old(rd).data@, old(rd).pos as int) is None,
            },
    {
        let name = match rd.read_string() {
            Ok(v) => v,
            Err(e) => {
                return Err(e);
            },
        };
        let transform = match rd.read_mat4() {
            Ok(v) => v,
            Err(e) => {
                return Err(e);
            },
        };
        Ok(LevelModelLightRef { name, transform })
    }
}

/// A placed particle effect: where it sits, where it points, its range,
/// and the effect name to instantiate.
#[derive(Debug, Clone, PartialEq, Eq)]
pub struct EffectStorage {
    pub name: String,
    pub position: Vec3,
    pub forward: Vec3,
    pub range: u32,
    pub effect: String,
}

pub struct EffectStorageV {
    pub name: Seq<char>,
    pub position: Vec3,
    pub forward: Vec3,
    pub range: u32,
    pub effect: Seq<char>,
}

impl View for EffectStorage {
    type V = EffectStorageV;

    open spec fn view(&self) -> EffectStorageV {
        EffectStorageV {
            name: self.name@,
            position: self.position,
            forward: self.forward,
            range: self.range,
            effect: self.effect@,
        }
    }
}

pub open spec fn sp_effect_storage(d: Seq<u8>, p: int) -> Option<(EffectStorageV, int)> {
    match sp_string(d, p) {
        None => None,
        Some((name, p1)) => match sp_vec3(d, p1) {
            None => None,
            Some((position, p2)) => match sp_vec3(d, p2) {
                None => None,
                Some((forward, p3)) => match sp_f32bits(d, p3) {
                    None => None,
                    Some((range, p4)) => match sp_string(d, p4) {
                        None => None,
                        Some((effect, p5)) => Some(
                            (EffectStorageV { name, position, forward, range, effect }, p5),
                        ),
                    },
                },
            },
        },
    }
}

impl EffectStorage {
    pub fn read(rd: &mut Reader) -> (r: Result<EffectStorage, DecodeError>)
        requires
            old(rd).wf(),
        ensures
            final(rd).wf(),
            final(rd).data@ == old(rd).data@,
            match r {
                Ok(v) => sp_effect_storage(old(rd).data@, old(rd).pos as int) == Some(
                    (v@, final(rd).pos as int),
                ) && final(rd).pos > old(rd).pos,
                Err(_) => sp_effect_storage(old(rd).data@, old(rd).pos as int) is None,
            },
    {
        let name = match rd.read_string() {
            Ok(v) => v,
            Err(e) => {
                return Err(e);
            },
        };
        let position = match rd.read_vec3() {
            Ok(v) => v,
            Err(e) => {
                return Err(e);
            },
        };
        let forward = match rd.read_vec3() {
            Ok(v) => v,
            Err(e) => {
                return Err(e);
            },
        };
        let range = match rd.read_f32bits() {
            Ok(v) => v,
            Err(e) => {
                return Err(e);
            },
        };
        let effect = match rd.read_string() {
            Ok(v) => v,
            Err(e) => {
                return Err(e);
            },
        };
        Ok(EffectStorage { name, position, forward, range, effect })
    }
}

/// A physics entity placement: its transform and template name.
#[derive(Debug, Clone, PartialEq, Eq)]
pub struct PhysicsEntityStorage {
    pub transform: Mat4,
    pub template: String,
}

pub struct PhysicsEntityStorageV {
    pub transform: Mat4,
    pub template: Seq<char>,
}

impl View for PhysicsEntityStorage {
    type V = PhysicsEntityStorageV;

    open spec fn view(&self) -> PhysicsEntityStorageV {
        PhysicsEntityStorageV { transform: self.transform, template: self.template@ }
    }
}

pub open spec fn sp_physics_storage(d: Seq<u8>, p: int) -> Option<(PhysicsEntityStorageV, int)> {
    match sp_mat4(d, p) {
        None => None,
        Some((transform, p1)) => match sp_string(d, p1) {
            None => None,
            Some((template, p2)) => Some((PhysicsEntityStorageV { transform, template }, p2)),
        },
    }
}

impl PhysicsEntityStorage {
    pub fn read(rd: &mut Reader) -> (r: Result<PhysicsEntityStorage, DecodeError>)
        requires
            old(rd).wf(),
        ensures
            final(rd).wf(),
            final(rd).data@ == old(rd).data@,
            match r {
                Ok(v) => sp_physics_storage(old(rd).data@, old(rd).pos as int) == Some(
                    (v@, final(rd).pos as int),
                ) && final(rd).pos > old(rd).pos,
                Err(_) => sp_physics_storage(old(rd).data@, old(rd).pos as int) is None,
            },
    {
        let transform = match rd.read_mat4() {
            Ok(v) => v,
            Err(e) => {
                return Err(e);
            },
        };
        let template = match rd.read_string() {
            Ok(v) => v,
            Err(e) => {
                return Err(e);
            },
        };
        Ok(PhysicsEntityStorage { transform, template })
    }
}

/// A named trigger volume: an oriented box.
#[derive(Debug, Clone, PartialEq, Eq)]
pub struct TriggerArea {
    pub name: String,
    pub position: Vec3,
    pub side_lengths: Vec3,
    pub orientation: Quat,
}

pub struct TriggerAreaV {
    pub name: Seq<char>,
    pub position: Vec3,
    pub side_lengths: Vec3,
    pub orientation: Quat,
}

impl View for TriggerArea {
    type V = TriggerAreaV;

    open spec fn view(&self) -> TriggerAreaV {
        TriggerAreaV {
            name: self.name@,
            position: self.position,
            side_lengths: self.side_lengths,
            orientation: self.orientation,
        }
    }
}

pub open spec fn sp_trigger_area(d: Seq<u8>, p: int) -> Option<(TriggerAreaV, int)> {
    match sp_string(d, p) {
        None => None,
        Some((name, p1)) => match sp_vec3(d, p1) {
            None => None,
            Some((position, p2)) => match sp_vec3(d, p2) {
                None => None,
                Some((side_lengths, p3)) => match sp_quat(d, p3) {
                    None => None,
                    Some((orientation, p4)) => Some(
                        (TriggerAreaV { name, position, side_lengths, orientation }, p4),
                    ),
                },
            },
        },
    }
}

impl TriggerArea {
    pub fn read(rd: &mut Reader) -> (r: Result<TriggerArea, DecodeError>)
        requires
            old(rd).wf(),
        ensures
            final(rd).wf(),
            final(rd).data@ == old(rd).data@,
            match r {
                Ok(v) => sp_trigger_area(old(rd).data@, old(rd).pos as int) == Some(
                    (v@, final(rd).pos as int),
                ) && final(rd).pos > old(rd).pos,
                Err(_) => sp_trigger_area(old(rd).data@, old(rd).pos as int) is None,
            },
    {
        let name = match rd.read_string() {
            Ok(v) => v,
            Err(e) => {
                return Err(e);
            },
        };
        let position = match rd.read_vec3() {
            Ok(v) => v,
            Err(e) => {
                return Err(e);
            },
        };
        let side_lengths = match rd.read_vec3() {
            Ok(v) => v,
            Err(e) => {
                return Err(e);
            },
        };
        let orientation = match rd.read_quat() {
            Ok(v) => v,
            Err(e) => {
                return Err(e);
            },
        };
        Ok(TriggerArea { name, position, side_lengths, orientation })
    }
}

/// A named locator: a transform plus a radius.
#[derive(Debug, Clone, PartialEq, Eq)]
pub struct Locator {
    pub name: String,
    pub transform: Mat4,
    pub radius: u32,
}

pub struct LocatorV {
    pub name: Seq<char>,
    pub transform: Mat4,
    pub radius: u32,
}

impl View for Locator {
    type V = LocatorV;

    open spec fn view(&self) -> LocatorV {
        LocatorV { name: self.name@, transform: self.transform, radius: self.radius }
    }
}

pub open spec fn sp_locator(d: Seq<u8>, p: int) -> Option<(LocatorV, int)> {
    match sp_string(d, p) {
        None => None,
        Some((name, p1)) => match sp_mat4(d, p1) {
            None => None,
            Some((transform, p2)) => match sp_f32bits(d, p2) {
                None => None,
                Some((radius, p3)) => Some((LocatorV { name, transform, radius }, p3)),
            },
        },
    }
}

impl Locator {
    pub fn read(rd: &mut Reader) -> (r: Result<Locator, DecodeError>)
        requires
            old(rd).wf(),
        ensures
            final(rd).wf(),
            final(rd).data@ == old(rd).data@,
            match r {
                Ok(v) => sp_locator(old(rd).data@, old(rd).pos as int) == Some(
                    (v@, final(rd).pos as int),
                ) && final(rd).pos > old(rd).pos,
                Err(_) => sp_locator(old(rd).data@, old(rd).pos as int) is None,
            },
    {
        let name = match rd.read_string() {
            Ok(v) => v,
            Err(e) => {
                return Err(e);
            },
        };
        let transform = match rd.read_mat4() {
            Ok(v) => v,
            Err(e) => {
                return Err(e);
            },
        };
        let radius = match rd.read_f32bits() {
            Ok(v) => v,
            Err(e) => {
                return Err(e);
            },
        };
        Ok(Locator { name, transform, radius })
    }
}

/// One triangle of the navigation mesh: vertices, neighbors, per-edge
/// traversal costs (IEEE bit patterns), and movement properties.
#[derive(Debug, Clone, Copy, PartialEq, Eq, Structural)]
pub struct NavMeshTriangle {
    pub vertex_a: u16,
    pub vertex_b: u16,
    pub vertex_c: u16,
    pub neighbor_a: u16,
    pub neighbor_b: u16,
    pub neighbor_c: u16,
    pub cost_ab: u32,
    pub cost_bc: u32,
    pub cost_ca: u32,
    pub properties: MovementProperties,
}

pub open spec fn sp_nav_triangle(d: Seq<u8>, p: int) -> Option<(NavMeshTriangle, int)> {
    match sp_u16le(d, p) {
        None => None,
        Some((vertex_a, p1)) => match sp_u16le(d, p1) {
            None => None,
            Some((vertex_b, p2)) => match sp_u16le(d, p2) {
                None => None,
                Some((vertex_c, p3)) => match sp_u16le(d, p3) {
                    None => None,
                    Some((neighbor_a, p4)) => match sp_u16le(d, p4) {
                        None => None,
                        Some((neighbor_b, p5)) => match sp_u16le(d, p5) {
                            None => None,
                            Some((neighbor_c, p6)) => match sp_f32bits(d, p6) {
                                None => None,
                                Some((cost_ab, p7)) => match sp_f32bits(d, p7) {
                                    None => None,
                                    Some((cost_bc, p8)) => match sp_f32bits(d, p8) {
                                        None => None,
                                        Some((cost_ca, p9)) => match sp_movement_properties(
                                            d,
                                            p9,
                                        ) {
                                            None => None,
                                            Some((properties, p10)) => Some(
                                                (
                                                    NavMeshTriangle {
                                                        vertex_a,
                                                        vertex_b,
                                                        vertex_c,
                                                        neighbor_a,
                                                        neighbor_b,
                                                        neighbor_c,
                                                        cost_ab,
                                                        cost_bc,
                                                        cost_ca,
                                                        properties,
                                                    },
                                                    p10,
                                                ),
                                            ),
                                        },
                                    },
                                },
                            },
                        },
                    },
                },
            },
        },
    }
}

impl NavMeshTriangle {
    pub fn read(rd: &mut Reader) -> (r: Result<NavMeshTriangle, DecodeError>)
        requires
            old(rd).wf(),
        ensures
            final(rd).wf(),
            final(rd).data@ == old(rd).data@,
            match r {
                Ok(v) => sp_nav_triangle(old(rd).data@, old(rd).pos as int) == Some(
                    (v, final(rd).pos as int),
                ) && final(rd).pos > old(rd).pos,
                Err(_) => sp_nav_triangle(old(rd).data@, old(rd).pos as int) is None,
            },
    {
        let vertex_a = match rd.read_u16le() {
            Ok(v) => v,
            Err(e) => {
                return Err(e);
            },
        };
        let vertex_b = match rd.read_u16le() {
            Ok(v) => v,
            Err(e) => {
                return Err(e);
            },
        };
        let vertex_c = match rd.read_u16le() {
            Ok(v) => v,
            Err(e) => {
                return Err(e);
            },
        };
        let neighbor_a = match rd.read_u16le() {
            Ok(v) => v,
            Err(e) => {
                return Err(e);
            },
        };
        let neighbor_b = match rd.read_u16le() {
            Ok(v) => v,
            Err(e) => {
                return Err(e);
            },
        };
        let neighbor_c = match rd.read_u16le() {
            Ok(v) => v,
            Err(e) => {
                return Err(e);
            },
        };
        let cost_ab = match rd.read_f32bits() {
            Ok(v) => v,
            Err(e) => {
                return Err(e);
            },
        };
        let cost_bc = match rd.read_f32bits() {
            Ok(v) => v,
            Err(e) => {
                return Err(e);
            },
        };
        let cost_ca = match rd.read_f32bits() {
            Ok(v) => v,
            Err(e) => {
                return Err(e);
            },
        };
        let properties = match MovementProperties::read(rd) {
            Ok(v) => v,
            Err(e) => {
                return Err(e);
            },
        };
        Ok(
            NavMeshTriangle {
                vertex_a,
                vertex_b,
                vertex_c,
                neighbor_a,
                neighbor_b,
                neighbor_c,
                cost_ab,
                cost_bc,
                cost_ca,
                properties,
            },
        )
    }
}

// ----------------------------------------------------- flat record lists --

pub open spec fn sp_vec3s(d: Seq<u8>, p: int, n: nat) -> Option<(Seq<Vec3>, int)>
    decreases n,
{
    if n == 0 {
        Some((Seq::empty(), p))
    } else {
        match sp_vec3(d, p) {
            None => None,
            Some((v, p1)) => match sp_vec3s(d, p1, (n - 1) as nat) {
                None => None,
                Some((vs, p2)) => Some((Seq::empty().push(v) + vs, p2)),
            },
        }
    }
}

fn read_vec3s(rd: &mut Reader, n: u32) -> (r: Result<Vec<Vec3>, DecodeError>)
    requires
        old(rd).wf(),
    ensures
        final(rd).wf(),
        final(rd).data@ == old(rd).data@,
        r is Ok ==> final(rd).pos >= old(rd).pos,
        match r {
            Ok(v) => sp_vec3s(old(rd).data@, old(rd).pos as int, n as nat) == Some(
                (v@, final(rd).pos as int),
            ),
            Err(_) => sp_vec3s(old(rd).data@, old(rd).pos as int, n as nat) is None,
        },
{
    let ghost d = old(rd).data@;
    let ghost p0 = old(rd).pos as int;
    let mut out: Vec<Vec3> = Vec::new();
    let mut i: u32 = 0;
    while i < n
        invariant
            rd.wf(),
            rd.data@ == d,
            d == old(rd).data@,
            p0 == old(rd).pos,
            p0 <= rd.pos,
            i <= n,
            out@.len() == i,
            sp_vec3s(d, p0, n as nat) == match sp_vec3s(d, rd.pos as int, (n - i) as nat) {
                None => None::<(Seq<Vec3>, int)>,
                Some((vs, pe)) => Some((out@ + vs, pe)),
            },
        decreases n - i,
    {
        let v = match rd.read_vec3() {
            Ok(v) => v,
            Err(e) => {
                return Err(e);
            },
        };
        proof {
            match sp_vec3s(d, rd.pos as int, (n - i - 1) as nat) {
                Some((vs, pe)) => {
                    assert(out@.push(v) + vs =~= out@ + (Seq::empty().push(v) + vs));
                },
                None => {},
            }
        }
        out.push(v);
        i = i + 1;
    }
    proof {
        assert(out@ + Seq::<Vec3>::empty() =~= out@);
    }
    Ok(out)
}

pub open spec fn sp_tri_index(d: Seq<u8>, p: int) -> Option<((u32, u32, u32), int)> {
    match sp_u32le(d, p) {
        None => None,
        Some((i0, p1)) => match sp_u32le(d, p1) {
            None => None,
            Some((i1, p2)) => match sp_u32le(d, p2) {
                None => None,
                Some((i2, p3)) => Some(((i0, i1, i2), p3)),
            },
        },
    }
}

pub open spec fn sp_tri_indices(d: Seq<u8>, p: int, n: nat) -> Option<(Seq<(u32, u32, u32)>, int)>
    decreases n,
{
    if n == 0 {
        Some((Seq::empty(), p))
    } else {
        match sp_tri_index(d, p) {
            None => None,
            Some((v, p1)) => match sp_tri_indices(d, p1, (n - 1) as nat) {
                None => None,
                Some((vs, p2)) => Some((Seq::empty().push(v) + vs, p2)),
            },
        }
    }
}

fn read_tri_indices(rd: &mut Reader, n: u32) -> (r: Result<Vec<(u32, u32, u32)>, DecodeError>)
    requires
        old(rd).wf(),
    ensures
        final(rd).wf(),
        final(rd).data@ == old(rd).data@,
        r is Ok ==> final(rd).pos >= old(rd).pos,
        match r {
            Ok(v) => sp_tri_indices(old(rd).data@, old(rd).pos as int, n as nat) == Some(
                (v@, final(rd).pos as int),
            ),
            Err(_) => sp_tri_indices(old(rd).data@, old(rd).pos as int, n as nat) is None,
        },
{
    let ghost d = old(rd).data@;
    let ghost p0 = old(rd).pos as int;
    let mut out: Vec<(u32, u32, u32)> = Vec::new();
    let mut i: u32 = 0;
    while i < n
        invariant
            rd.wf(),
            rd.data@ == d,
            d == old(rd).data@,
            p0 == old(rd).pos,
            p0 <= rd.pos,
            i <= n,
            out@.len() == i,
            sp_tri_indices(d, p0, n as nat) == match sp_tri_indices(
                d,
                rd.pos as int,
                (n - i) as nat,
            ) {
                None => None::<(Seq<(u32, u32, u32)>, int)>,
                Some((vs, pe)) => Some((out@ + vs, pe)),
            },
        decreases n - i,
    {
        let i0 = match rd.read_u32le() {
            Ok(v) => v,
            Err(e) => {
                return Err(e);
            },
        };
        let i1 = match rd.read_u32le() {
            Ok(v) => v,
            Err(e) => {
                return Err(e);
            },
        };
        let i2 = match rd.read_u32le() {
            Ok(v) => v,
            Err(e) => {
                return Err(e);
            },
        };
        proof {
            match sp_tri_indices(d, rd.pos as int, (n - i - 1) as nat) {
                Some((vs, pe)) => {
                    assert(out@.push((i0, i1, i2)) + vs =~= out@ + (Seq::empty().push((i0, i1, i2))
                        + vs));
                },
                None => {},
            }
        }
        out.push((i0, i1, i2));
        i = i + 1;
    }
    proof {
        assert(out@ + Seq::<(u32, u32, u32)>::empty() =~= out@);
    }
    Ok(out)
}

/// A plain triangle soup used for collision and camera-collision queries.
/// The stream introduces it through a list-reader manifest entry.
#[derive(Debug, Clone, PartialEq, Eq)]
pub struct TriangleMesh {
    pub vertices: Vec<Vec3>,
    pub indices: Vec<(u32, u32, u32)>,
}

pub struct TriangleMeshV {
    pub vertices: Seq<Vec3>,
    pub indices: Seq<(u32, u32, u32)>,
}

impl View for TriangleMesh {
    type V = TriangleMeshV;

    open spec fn view(&self) -> TriangleMeshV {
        TriangleMeshV { vertices: self.vertices@, indices: self.indices@ }
    }
}

/// A triangle mesh: a type index whose manifest name must begin with the
/// list reader's name, then counted vertices and counted index triples.
pub open spec fn sp_triangle_mesh(d: Seq<u8>, p: int, names: Seq<Seq<char>>) -> Option<
    (TriangleMeshV, int),
> {
    match sp_varint(d, p) {
        None => None,
        Some((ridx, p1)) => {
            if ridx == 0 || !(0 <= ridx as int - 1 < names.len()) {
                None
            } else if !sp_starts_with(
                names[ridx as int - 1],
                "Microsoft.Xna.Framework.Content.ListReader"@,
            ) {
                None
            } else {
                match sp_u32le(d, p1) {
                    None => None,
                    Some((nv, p2)) => match sp_vec3s(d, p2, nv as nat) {
                        None => None,
                        Some((vertices, p3)) => match sp_u32le(d, p3) {
                            None => None,
                            Some((ni, p4)) => match sp_tri_indices(d, p4, ni as nat) {
                                None => None,
                                Some((indices, p5)) => Some(
                                    (TriangleMeshV { vertices, indices }, p5),
                                ),
                            },
                        },
                    },
                }
            }
        },
    }
}

impl TriangleMesh {
    pub fn read(rd: &mut Reader, type_readers: &[TypeReader]) -> (r: Result<
        TriangleMesh,
        DecodeError,
    >)
        requires
            old(rd).wf(),
        ensures
            final(rd).wf(),
            final(rd).data@ == old(rd).data@,
            match r {
                Ok(v) => sp_triangle_mesh(
                    old(rd).data@,
                    old(rd).pos as int,
                    sp_names(type_readers@),
                ) == Some((v@, final(rd).pos as int)) && final(rd).pos > old(rd).pos,
                Err(_) => sp_triangle_mesh(
                    old(rd).data@,
                    old(rd).pos as int,
                    sp_names(type_readers@),
                ) is None,
            },
    {
        let ridx = match rd.read_varint() {
            Ok(v) => v,
            Err(e) => {
                return Err(e);
            },
        };
        if ridx == 0 {
            return Err(DecodeError::BadTypeIndex);
        }
        let idx: usize = (ridx - 1) as usize;
        if idx >= type_readers.len() {
            return Err(DecodeError::BadTypeIndex);
        }
        let tr = &type_readers[idx];
        proof {
            assert(sp_names(type_readers@)[ridx as int - 1] == type_readers@[idx as int].name@);
        }
        if !str_starts_with(tr.name.as_str(), "Microsoft.Xna.Framework.Content.ListReader") {
            return Err(DecodeError::ExpectedListReader);
        }
        let nv = match rd.read_u32le() {
            Ok(v) => v,
            Err(e) => {
                return Err(e);
            },
        };
        let vertices = match read_vec3s(rd, nv) {
            Ok(v) => v,
            Err(e) => {
                return Err(e);
            },
        };
        let ni = match rd.read_u32le() {
            Ok(v) => v,
            Err(e) => {
                return Err(e);
            },
        };
        let indices = match read_tri_indices(rd, ni) {
            Ok(v) => v,
            Err(e) => {
                return Err(e);
            },
        };
        Ok(TriangleMesh { vertices, indices })
    }
}

pub open spec fn sp_nav_triangles(d: Seq<u8>, p: int, n: nat) -> Option<(Seq<NavMeshTriangle>, int)>
    decreases n,
{
    if n == 0 {
        Some((Seq::empty(), p))
    } else {
        match sp_nav_triangle(d, p) {
            None => None,
            Some((v, p1)) => match sp_nav_triangles(d, p1, (n - 1) as nat) {
                None => None,
                Some((vs, p2)) => Some((Seq::empty().push(v) + vs, p2)),
            },
        }
    }
}

fn read_nav_triangles(rd: &mut Reader, n: u16) -> (r: Result<Vec<NavMeshTriangle>, DecodeError>)
    requires
        old(rd).wf(),
    ensures
        final(rd).wf(),
        final(rd).data@ == old(rd).data@,
        r is Ok ==> final(rd).pos >= old(rd).pos,
        match r {
            Ok(v) => sp_nav_triangles(old(rd).data@, old(rd).pos as int, n as nat) == Some(
                (v@, final(rd).pos as int),
            ),
            Err(_) => sp_nav_triangles(old(rd).data@, old(rd).pos as int, n as nat) is None,
        },
{
    let ghost d = old(rd).data@;
    let ghost p0 = old(rd).pos as int;
    let mut out: Vec<NavMeshTriangle> = Vec::new();
    let mut i: u16 = 0;
    while i < n
        invariant
            rd.wf(),
            rd.data@ == d,
            d == old(rd).data@,
            p0 == old(rd).pos,
            p0 <= rd.pos,
            i <= n,
            out@.len() == i,
            sp_nav_triangles(d, p0, n as nat) == match sp_nav_triangles(
                d,
                rd.pos as int,
                (n - i) as nat,
            ) {
                None => None::<(Seq<NavMeshTriangle>, int)>,
                Some((vs, pe)) => Some((out@ + vs, pe)),
            },
        decreases n - i,
    {
        let v = match NavMeshTriangle::read(rd) {
            Ok(v) => v,
            Err(e) => {
                return Err(e);
            },
        };
        proof {
            match sp_nav_triangles(d, rd.pos as int, (n - i - 1) as nat) {
                Some((vs, pe)) => {
                    assert(out@.push(v) + vs =~= out@ + (Seq::empty().push(v) + vs));
                },
                None => {},
            }
        }
        out.push(v);
        i = i + 1;
    }
    proof {
        assert(out@ + Seq::<NavMeshTriangle>::empty() =~= out@);
    }
    Ok(out)
}

/// The walkable-surface mesh: vertices and triangles with per-edge costs.
#[derive(Debug, Clone, PartialEq, Eq)]
pub struct NavMesh {
    pub vertices: Vec<Vec3>,
    pub triangles: Vec<NavMeshTriangle>,
}

pub struct NavMeshV {
    pub vertices: Seq<Vec3>,
    pub triangles: Seq<NavMeshTriangle>,
}

impl View for NavMesh {
    type V = NavMeshV;

    open spec fn view(&self) -> NavMeshV {
        NavMeshV { vertices: self.vertices@, triangles: self.triangles@ }
    }
}

pub open spec fn sp_nav_mesh(d: Seq<u8>, p: int) -> Option<(NavMeshV, int)> {
    match sp_u16le(d, p) {
        None => None,
        Some((nv, p1)) => match sp_vec3s(d, p1, nv as nat) {
            None => None,
            Some((vertices, p2)) => match sp_u16le(d, p2) {
                None => None,
                Some((nt, p3)) => match sp_nav_triangles(d, p3, nt as nat) {
                    None => None,
                    Some((triangles, p4)) => Some((NavMeshV { vertices, triangles }, p4)),
                },
            },
        },
    }
}

impl NavMesh {
    pub fn read(rd: &mut Reader) -> (r: Result<NavMesh, DecodeError>)
        requires
            old(rd).wf(),
        ensures
            final(rd).wf(),
            final(rd).data@ == old(rd).data@,
            match r {
                Ok(v) => sp_nav_mesh(old(rd).data@, old(rd).pos as int) == Some(
                    (v@, final(rd).pos as int),
                ) && final(rd).pos > old(rd).pos,
                Err(_) => sp_nav_mesh(old(rd).data@, old(rd).pos as int) is None,
            },
    {
        let nv = match rd.read_u16le() {
            Ok(v) => v,
            Err(e) => {
                return Err(e);
            },
        };
        let vertices = match read_vec3s(rd, nv as u32) {
            Ok(v) => v,
            Err(e) => {
                return Err(e);
            },
        };
        let nt = match rd.read_u16le() {
            Ok(v) => v,
            Err(e) => {
                return Err(e);
            },
        };
        let triangles = match read_nav_triangles(rd, nt) {
            Ok(v) => v,
            Err(e) => {
                return Err(e);
            },
        };
        Ok(NavMesh { vertices, triangles })
    }
}

// ------------------------------------------------------------- liquids --

#[derive(Debug, Clone, PartialEq, Eq)]
pub struct Water {}

#[derive(Debug, Clone, PartialEq, Eq)]
pub struct Lava {}

/// A liquid region. The binary layout of the two variants is not known;
/// decoding one aborts loudly rather than misreading what follows.
#[derive(Debug, Clone, PartialEq, Eq)]
pub enum Liquid {
    Water(Water),
    Lava(Lava),
}

pub enum LiquidV {
    Water,
    Lava,
}

impl View for Liquid {
    type V = LiquidV;

    open spec fn view(&self) -> LiquidV {
        match self {
            Liquid::Water(_) => LiquidV::Water,
            Liquid::Lava(_) => LiquidV::Lava,
        }
    }
}

/// No liquid payload can be decoded; a non-empty liquid list always fails.
pub open spec fn sp_liquids(d: Seq<u8>, p: int, n: nat) -> Option<(Seq<LiquidV>, int)> {
    if n == 0 {
        Some((Seq::empty(), p))
    } else {
        None
    }
}

impl Liquid {
    /// Reads the variant discriminant and then fails: the layouts behind
    /// it have not been established, and guessing would silently corrupt
    /// every later field of the level.
    pub fn read(rd: &mut Reader) -> (r: Result<Liquid, DecodeError>)
        requires
            old(rd).wf(),
        ensures
            final(rd).wf(),
            final(rd).data@ == old(rd).data@,
            r is Err,
            sp_varint(old(rd).data@, old(rd).pos as int) is Some ==> r == Err::<
                Liquid,
                DecodeError,
            >(DecodeError::UnsupportedLiquid),
    {
        match rd.read_varint() {
            Ok(_) => Err(DecodeError::UnsupportedLiquid),
            Err(e) => Err(e),
        }
    }
}

fn read_liquids(rd: &mut Reader, n: u32) -> (r: Result<Vec<Liquid>, DecodeError>)
    requires
        old(rd).wf(),
    ensures
        final(rd).wf(),
        final(rd).data@ == old(rd).data@,
        r is Ok ==> final(rd).pos >= old(rd).pos,
        match r {
            Ok(v) => sp_liquids(old(rd).data@, old(rd).pos as int, n as nat) == Some(
                (v@.map_values(|l: Liquid| l@), final(rd).pos as int),
            ),
            Err(_) => sp_liquids(old(rd).data@, old(rd).pos as int, n as nat) is None,
        },
{
    if n == 0 {
        let out: Vec<Liquid> = Vec::new();
        proof {
            assert(out@.map_values(|l: Liquid| l@) =~= Seq::<LiquidV>::empty());
        }
        return Ok(out);
    }
    match Liquid::read(rd) {
        Ok(_) => Err(DecodeError::UnsupportedLiquid),
        Err(e) => Err(e),
    }
}

// -------------------------------------------------------- force fields --

/// A force-field volume with its own geometry and shading parameters.
#[derive(Debug, Clone, PartialEq, Eq)]
pub struct ForceField {
    pub color: Color,
    pub width: u32,
    pub alpha_power: u32,
    pub alpha_falloff_power: u32,
    pub max_radius: u32,
    pub ripple_distortion: u32,
    pub map_distortion: u32,
    pub vertex_color_enabled: bool,
    pub displacement_map: String,
    pub ttl: u32,
    pub vertex_buffer: VertexBuffer,
    pub index_buffer: IndexBuffer,
    pub vertex_declaration: VertexDeclaration,
    pub vertex_stride: i32,
    pub num_vertices: i32,
    pub primitive_count: i32,
}

pub struct ForceFieldV {
    pub color: Color,
    pub width: u32,
    pub alpha_power: u32,
    pub alpha_falloff_power: u32,
    pub max_radius: u32,
    pub ripple_distortion: u32,
    pub map_distortion: u32,
    pub vertex_color_enabled: bool,
    pub displacement_map: Seq<char>,
    pub ttl: u32,
    pub vertex_buffer: VertexBufferV,
    pub index_buffer: IndexBufferV,
    pub vertex_declaration: VertexDeclarationV,
    pub vertex_stride: i32,
    pub num_vertices: i32,
    pub primitive_count: i32,
}

impl View for ForceField {
    type V = ForceFieldV;

    open spec fn view(&self) -> ForceFieldV {
        ForceFieldV {
            color: self.color,
            width: self.width,
            alpha_power: self.alpha_power,
            alpha_falloff_power: self.alpha_falloff_power,
            max_radius: self.max_radius,
            ripple_distortion: self.ripple_distortion,
            map_distortion: self.map_distortion,
            vertex_color_enabled: self.vertex_color_enabled,
            displacement_map: self.displacement_map@,
            ttl: self.ttl,
            vertex_buffer: self.vertex_buffer@,
            index_buffer: self.index_buffer@,
            vertex_declaration: self.vertex_declaration@,
            vertex_stride: self.vertex_stride,
            num_vertices: self.num_vertices,
            primitive_count: self.primitive_count,
        }
    }
}

pub open spec fn sp_force_field(d: Seq<u8>, p: int, names: Seq<Seq<char>>) -> Option<
    (ForceFieldV, int),
>
    decreases d.len() - p, 1int,
{
    match sp_color(d, p) {
        None => None,
        Some((color, p1)) => match sp_f32bits(d, p1) {
            None => None,
            Some((width, p2)) => match sp_f32bits(d, p2) {
                None => None,
                Some((alpha_power, p3)) => match sp_f32bits(d, p3) {
                    None => None,
                    Some((alpha_falloff_power, p4)) => match sp_f32bits(d, p4) {
                        None => None,
                        Some((max_radius, p5)) => match sp_f32bits(d, p5) {
                            None => None,
                            Some((ripple_distortion, p6)) => match sp_f32bits(d, p6) {
                                None => None,
                                Some((map_distortion, p7)) => match sp_bool(d, p7) {
                                    None => None,
                                    Some((vertex_color_enabled, p8)) => match sp_string(d, p8) {
                                        None => None,
                                        Some((displacement_map, p9)) => match sp_f32bits(d, p9) {
                                            None => None,
                                            Some((ttl, p10)) => {
                                                if !(p < p10 <= d.len()) {
                                                    None
                                                } else {
                                                    sp_force_field_rest(
                                                        d,
                                                        p,
                                                        p10,
                                                        names,
                                                        ForceFieldV {
                                                            color,
                                                            width,
                                                            alpha_power,
                                                            alpha_falloff_power,
                                                            max_radius,
                                                            ripple_distortion,
                                                            map_distortion,
                                                            vertex_color_enabled,
                                                            displacement_map,
                                                            ttl,
                                                            vertex_buffer: VertexBufferV {
                                                                data: Seq::empty(),
                                                            },
                                                            index_buffer: IndexBufferV {
                                                                is_16_bit: false,
                                                                data: Seq::empty(),
                                                            },
                                                            vertex_declaration: VertexDeclarationV {
                                                                elements: Seq::empty(),
                                                            },
                                                            vertex_stride: 0,
                                                            num_vertices: 0,
                                                            primitive_count: 0,
                                                        },
                                                    )
                                                }
                                            },
                                        },
                                    },
                                },
                            },
                        },
                    },
                },
            },
        },
    }
}

/// The asset-bearing tail of a force field, after its flat prefix.
pub open spec fn sp_force_field_rest(
    d: Seq<u8>,
    p: int,
    p10: int,
    names: Seq<Seq<char>>,
    acc: ForceFieldV,
) -> Option<(ForceFieldV, int)>
    decreases d.len() - p, 0int,
{
    if !(p < p10 <= d.len()) {
        None
    } else {
        match sp_asset(d, p10, names) {
            None => None,
            Some((a0, p11)) => match a0 {
                AssetV::VertexBuffer(vertex_buffer) => {
                    if !(p < p11 <= d.len()) {
                        None
                    } else {
                        match sp_asset(d, p11, names) {
                            None => None,
                            Some((a1, p12)) => match a1 {
                                AssetV::IndexBuffer(index_buffer) => {
                                    if !(p < p12 <= d.len()) {
                                        None
                                    } else {
                                        match sp_asset(d, p12, names) {
                                            None => None,
                                            Some((a2, p13)) => match a2 {
                                                AssetV::VertexDeclaration(vertex_declaration) =>
                                                    match sp_i32le(d, p13) {
                                                    None => None,
                                                    Some((vertex_stride, p14)) => match sp_i32le(
                                                        d,
                                                        p14,
                                                    ) {
                                                        None => None,
                                                        Some((num_vertices, p15)) => match
                                                            sp_i32le(d, p15) {
                                                            None => None,
                                                            Some((primitive_count, p16)) => Some(
                                                                (
                                                                    ForceFieldV {
                                                                        vertex_buffer,
                                                                        index_buffer,
                                                                        vertex_declaration,
                                                                        vertex_stride,
                                                                        num_vertices,
                                                                        primitive_count,
                                                                        ..acc
                                                                    },
                                                                    p16,
                                                                ),
                                                            ),
                                                        },
                                                    },
                                                },
                                                _ => None,
                                            },
                                        }
                                    }
                                },
                                _ => None,
                            },
                        }
                    }
                },
                _ => None,
            },
        }
    }
}

impl ForceField {
    #[verifier::rlimit(100)]
    pub fn read(rd: &mut Reader, type_readers: &[TypeReader]) -> (r: Result<
        ForceField,
        DecodeError,
    >)
        requires
            old(rd).wf(),
        ensures
            final(rd).wf(),
            final(rd).data@ == old(rd).data@,
            match r {
                Ok(v) => sp_force_field(old(rd).data@, old(rd).pos as int, sp_names(type_readers@))
                    == Some((v@, final(rd).pos as int)) && final(rd).pos > old(rd).pos,
                Err(_) => sp_force_field(
                    old(rd).data@,
                    old(rd).pos as int,
                    sp_names(type_readers@),
                ) is None,
            },
    decreases old(rd).data@.len() - old(rd).pos, 0int,
    {
        let color = match Color::read(rd) {
            Ok(v) => v,
            Err(e) => {
                return Err(e);
            },
        };
        let width = match rd.read_f32bits() {
            Ok(v) => v,
            Err(e) => {
                return Err(e);
            },
        };
        let alpha_power = match rd.read_f32bits() {
            Ok(v) => v,
            Err(e) => {
                return Err(e);
            },
        };
        let alpha_falloff_power = match rd.read_f32bits() {
            Ok(v) => v,
            Err(e) => {
                return Err(e);
            },
        };
        let max_radius = match rd.read_f32bits() {
            Ok(v) => v,
            Err(e) => {
                return Err(e);
            },
        };
        let ripple_distortion = match rd.read_f32bits() {
            Ok(v) => v,
            Err(e) => {
                return Err(e);
            },
        };
        let map_distortion = match rd.read_f32bits() {
            Ok(v) => v,
            Err(e) => {
                return Err(e);
            },
        };
        let vertex_color_enabled = match rd.read_bool() {
            Ok(v) => v,
            Err(e) => {
                return Err(e);
            },
        };
        let displacement_map = match rd.read_string() {
            Ok(v) => v,
            Err(e) => {
                return Err(e);
            },
        };
        let ttl = match rd.read_f32bits() {
            Ok(v) => v,
            Err(e) => {
                return Err(e);
            },
        };
        let vertex_buffer = match XnbAsset::read(rd, type_readers) {
            Ok(XnbAsset::VertexBuffer(v)) => v,
            Ok(_) => {
                return Err(DecodeError::UnexpectedAsset);
            },
            Err(e) => {
                return Err(e);
            },
        };
        let index_buffer = match XnbAsset::read(rd, type_readers) {
            Ok(XnbAsset::IndexBuffer(v)) => v,
            Ok(_) => {
                return Err(DecodeError::UnexpectedAsset);
            },
            Err(e) => {
                return Err(e);
            },
        };
        let vertex_declaration = match XnbAsset::read(rd, type_readers) {
            Ok(XnbAsset::VertexDeclaration(v)) => v,
            Ok(_) => {
                return Err(DecodeError::UnexpectedAsset);
            },
            Err(e) => {
                return Err(e);
            },
        };
        let vertex_stride = match rd.read_i32le() {
            Ok(v) => v,
            Err(e) => {
                return Err(e);
            },
        };
        let num_vertices = match rd.read_i32le() {
            Ok(v) => v,
            Err(e) => {
                return Err(e);
            },
        };
        let primitive_count = match rd.read_i32le() {
            Ok(v) => v,
            Err(e) => {
                return Err(e);
            },
        };
        Ok(
            ForceField {
                color,
                width,
                alpha_power,
                alpha_falloff_power,
                max_radius,
                ripple_distortion,
                map_distortion,
                vertex_color_enabled,
                displacement_map,
                ttl,
                vertex_buffer,
                index_buffer,
                vertex_declaration,
                vertex_stride,
                num_vertices,
                primitive_count,
            },
        )
    }
}

pub open spec fn sp_force_fields(d: Seq<u8>, p: int, names: Seq<Seq<char>>, n: nat) -> Option<
    (Seq<ForceFieldV>, int),
>
    decreases d.len() - p, 2int, n,
{
    if n == 0 {
        Some((Seq::empty(), p))
    } else {
        match sp_force_field(d, p, names) {
            None => None,
            Some((v, p1)) => {
                if p < p1 <= d.len() {
                    match sp_force_fields(d, p1, names, (n - 1) as nat) {
                        None => None,
                        Some((vs, p2)) => Some((Seq::empty().push(v) + vs, p2)),
                    }
                } else {
                    None
                }
            },
        }
    }
}

// ----------------------------------------------- animated level parts --

/// One per-mesh setting pair of an animated part, in stream order.
#[derive(Debug, Clone, PartialEq, Eq)]
pub struct MeshSetting {
    pub name: String,
    pub flag1: bool,
    pub flag2: bool,
}

pub struct MeshSettingV {
    pub name: Seq<char>,
    pub flag1: bool,
    pub flag2: bool,
}

impl View for MeshSetting {
    type V = MeshSettingV;

    open spec fn view(&self) -> MeshSettingV {
        MeshSettingV { name: self.name@, flag1: self.flag1, flag2: self.flag2 }
    }
}

pub open spec fn sp_mesh_setting(d: Seq<u8>, p: int) -> Option<(MeshSettingV, int)> {
    match sp_string(d, p) {
        None => None,
        Some((name, p1)) => match sp_bool(d, p1) {
            None => None,
            Some((flag1, p2)) => match sp_bool(d, p2) {
                None => None,
                Some((flag2, p3)) => Some((MeshSettingV { name, flag1, flag2 }, p3)),
            },
        },
    }
}

pub open spec fn sp_mesh_settings(d: Seq<u8>, p: int, n: nat) -> Option<(Seq<MeshSettingV>, int)>
    decreases n,
{
    if n == 0 {
        Some((Seq::empty(), p))
    } else {
        match sp_mesh_setting(d, p) {
            None => None,
            Some((v, p1)) => match sp_mesh_settings(d, p1, (n - 1) as nat) {
                None => None,
                Some((vs, p2)) => Some((Seq::empty().push(v) + vs, p2)),
            },
        }
    }
}

/// The setting pair a name resolves to: the last entry carrying the name,
/// as repeated inserts into the keyed table of the format would leave it.
pub open spec fn sp_setting_of(s: Seq<MeshSettingV>, name: Seq<char>) -> Option<(bool, bool)>
    decreases s.len(),
{
    if s.len() == 0 {
        None
    } else if s.last().name == name {
        Some((s.last().flag1, s.last().flag2))
    } else {
        sp_setting_of(s.drop_last(), name)
    }
}

/// Look a mesh name up in a part's settings; later entries shadow earlier
/// ones with the same name.
pub fn mesh_setting_lookup(settings: &Vec<MeshSetting>, name: &str) -> (r: Option<(bool, bool)>)
    ensures
        r == sp_setting_of(settings@.map_values(|m: MeshSetting| m@), name@),
{
    let ghost sv = settings@.map_values(|m: MeshSetting| m@);
    let mut i: usize = settings.len();
    proof {
        assert(sv.take(i as int) =~= sv);
    }
    while i > 0
        invariant
            i <= settings@.len(),
            sv == settings@.map_values(|m: MeshSetting| m@),
            sp_setting_of(sv, name@) == sp_setting_of(sv.take(i as int), name@),
        decreases i,
    {
        i = i - 1;
        let hit = crate::strutil::str_eq(settings[i].name.as_str(), name);
        proof {
            assert(sv.take(i + 1).last() == sv[i as int]);
            assert(sv.take(i + 1).drop_last() =~= sv.take(i as int));
        }
        if hit {
            return Some((settings[i].flag1, settings[i].flag2));
        }
    }
    proof {
        assert(sv.take(0) =~= Seq::<MeshSettingV>::empty());
    }
    None
}

/// Collision data of an animated part: a surface material and a mesh.
#[derive(Debug, Clone, PartialEq, Eq)]
pub struct AnimatedLevelPartCollision {
    pub material: CollisionMaterial,
    pub mesh: TriangleMesh,
}

pub struct AnimatedLevelPartCollisionV {
    pub material: CollisionMaterial,
    pub mesh: TriangleMeshV,
}

impl View for AnimatedLevelPartCollision {
    type V = AnimatedLevelPartCollisionV;

    open spec fn view(&self) -> AnimatedLevelPartCollisionV {
        AnimatedLevelPartCollisionV { material: self.material, mesh: self.mesh@ }
    }
}

/// A movable sub-part of a level: its own model, settings, decorations,
/// one animation channel, and recursively more parts.
#[derive(Debug)]
pub struct AnimatedLevelPart {
    pub name: String,
    pub affect_shields: bool,
    pub model: Model,
    pub mesh_settings: Vec<MeshSetting>,
    pub liquids: Vec<Liquid>,
    pub locators: Vec<Locator>,
    pub animation_duration: u32,
    pub animation: AnimationChannel,
    pub effect_storages: Vec<EffectStorage>,
    pub light_refs: Vec<LevelModelLightRef>,
    pub collision: Option<AnimatedLevelPartCollision>,
    pub nav_mesh: Option<NavMesh>,
    pub children: Vec<AnimatedLevelPart>,
}

pub struct AnimatedLevelPartV {
    pub name: Seq<char>,
    pub affect_shields: bool,
    pub model: ModelV,
    pub mesh_settings: Seq<MeshSettingV>,
    pub liquids: Seq<LiquidV>,
    pub locators: Seq<LocatorV>,
    pub animation_duration: u32,
    pub animation: AnimationChannelV,
    pub effect_storages: Seq<EffectStorageV>,
    pub light_refs: Seq<LevelModelLightRefV>,
    pub collision: Option<AnimatedLevelPartCollisionV>,
    pub nav_mesh: Option<NavMeshV>,
    pub children: Seq<AnimatedLevelPartV>,
}

/// The abstract value of one animated part.
pub open spec fn sp_view_animated_part(x: AnimatedLevelPart) -> AnimatedLevelPartV
    decreases x,
{
    AnimatedLevelPartV {
        name: x.name@,
        affect_shields: x.affect_shields,
        model: x.model@,
        mesh_settings: x.mesh_settings@.map_values(|m: MeshSetting| m@),
        liquids: x.liquids@.map_values(|l: Liquid| l@),
        locators: x.locators@.map_values(|l: Locator| l@),
        animation_duration: x.animation_duration,
        animation: x.animation@,
        effect_storages: x.effect_storages@.map_values(|e: EffectStorage| e@),
        light_refs: x.light_refs@.map_values(|l: LevelModelLightRef| l@),
        collision: match x.collision {
            Some(c) => Some(c@),
            None => None,
        },
        nav_mesh: match x.nav_mesh {
            Some(n) => Some(n@),
            None => None,
        },
        children: sp_view_parts_vec(x.children),
    }
}

/// Abstract values of a part sequence, built element by element.
pub open spec fn sp_view_parts_seq(s: Seq<AnimatedLevelPart>) -> Seq<AnimatedLevelPartV>
    decreases s,
{
    if s.len() == 0 {
        Seq::empty()
    } else {
        sp_view_parts_seq(s.drop_last()).push(sp_view_animated_part(s.last()))
    }
}

pub open spec fn sp_view_parts_vec(v: Vec<AnimatedLevelPart>) -> Seq<AnimatedLevelPartV>
    decreases v,
{
    sp_view_parts_seq(v@)
}

impl View for AnimatedLevelPart {
    type V = AnimatedLevelPartV;

    open spec fn view(&self) -> AnimatedLevelPartV {
        sp_view_animated_part(*self)
    }
}

pub open spec fn sp_animated_part(d: Seq<u8>, p: int, names: Seq<Seq<char>>) -> Option<
    (AnimatedLevelPartV, int),
>
    decreases d.len() - p, 3int,
{
    match sp_string(d, p) {
        None => None,
        Some((name, p1)) => match sp_bool(d, p1) {
            None => None,
            Some((affect_shields, p2)) => {
                if !(p < p2 <= d.len()) {
                    None
                } else {
                    match sp_asset(d, p2, names) {
                        None => None,
                        Some((a0, p3)) => match a0 {
                            AssetV::Model(model) => sp_animated_part_lists(
                                d,
                                p,
                                p3,
                                names,
                                AnimatedLevelPartV {
                                    name,
                                    affect_shields,
                                    model,
                                    mesh_settings: Seq::empty(),
                                    liquids: Seq::empty(),
                                    locators: Seq::empty(),
                                    animation_duration: 0,
                                    animation: AnimationChannelV { keyframes: Seq::empty() },
                                    effect_storages: Seq::empty(),
                                    light_refs: Seq::empty(),
                                    collision: None,
                                    nav_mesh: None,
                                    children: Seq::empty(),
                                },
                            ),
                            _ => None,
                        },
                    }
                }
            },
        },
    }
}

/// Settings, liquids, locators, and the animation of an animated part.
pub open spec fn sp_animated_part_lists(
    d: Seq<u8>,
    p: int,
    q: int,
    names: Seq<Seq<char>>,
    acc: AnimatedLevelPartV,
) -> Option<(AnimatedLevelPartV, int)>
    decreases d.len() - p, 2int,
{
    match sp_i32le(d, q) {
        None => None,
        Some((ns, q1)) => match sp_mesh_settings(d, q1, sp_count(ns)) {
            None => None,
            Some((mesh_settings, q2)) => match sp_i32le(d, q2) {
                None => None,
                Some((nl, q3)) => match sp_liquids(d, q3, sp_count(nl)) {
                    None => None,
                    Some((liquids, q4)) => match sp_i32le(d, q4) {
                        None => None,
                        Some((nloc, q5)) => match sp_locators_n(d, q5, sp_count(nloc)) {
                            None => None,
                            Some((locators, q6)) => match sp_f32bits(d, q6) {
                                None => None,
                                Some((animation_duration, q7)) => match sp_animation_channel(
                                    d,
                                    q7,
                                ) {
                                    None => None,
                                    Some((animation, q8)) => sp_animated_part_refs(
                                        d,
                                        p,
                                        q8,
                                        names,
                                        AnimatedLevelPartV {
                                            mesh_settings,
                                            liquids,
                                            locators,
                                            animation_duration,
                                            animation,
                                            ..acc
                                        },
                                    ),
                                },
                            },
                        },
                    },
                },
            },
        },
    }
}

/// Effect storages, light references, collision, navigation mesh, and the
/// recursive children of an animated part.
pub open spec fn sp_animated_part_refs(
    d: Seq<u8>,
    p: int,
    q: int,
    names: Seq<Seq<char>>,
    acc: AnimatedLevelPartV,
) -> Option<(AnimatedLevelPartV, int)>
    decreases d.len() - p, 1int,
{
    match sp_i32le(d, q) {
        None => None,
        Some((nes, q1)) => match sp_effect_storages_n(d, q1, sp_count(nes)) {
            None => None,
            Some((effect_storages, q2)) => match sp_i32le(d, q2) {
                None => None,
                Some((nlr, q3)) => match sp_light_refs_n(d, q3, sp_count(nlr)) {
                    None => None,
                    Some((light_refs, q4)) => match sp_bool(d, q4) {
                        None => None,
                        Some((has_col, q5)) => {
                            let col = if has_col {
                                match sp_u8(d, q5) {
                                    None => None,
                                    Some((cb, q6)) => match sp_collision_material_of(cb) {
                                        None => None,
                                        Some(material) => match sp_triangle_mesh(d, q6, names) {
                                            None => None,
                                            Some((mesh, q7)) => Some(
                                                (
                                                    Some(
                                                        AnimatedLevelPartCollisionV {
                                                            material,
                                                            mesh,
                                                        },
                                                    ),
                                                    q7,
                                                ),
                                            ),
                                        },
                                    },
                                }
                            } else {
                                Some((None, q5))
                            };
                            match col {
                                None => None,
                                Some((collision, q7)) => match sp_bool(d, q7) {
                                    None => None,
                                    Some((has_nav, q8)) => {
                                        let nav = if has_nav {
                                            match sp_nav_mesh(d, q8) {
                                                None => None,
                                                Some((nm, q9)) => Some((Some(nm), q9)),
                                            }
                                        } else {
                                            Some((None, q8))
                                        };
                                        match nav {
                                            None => None,
                                            Some((nav_mesh, q9)) => match sp_i32le(d, q9) {
                                                None => None,
                                                Some((nc, q10)) => {
                                                    if !(p < q10 <= d.len()) {
                                                        None
                                                    } else {
                                                        match sp_animated_parts(
                                                            d,
                                                            q10,
                                                            names,
                                                            sp_count(nc),
                                                        ) {
                                                            None => None,
                                                            Some((children, q11)) => Some(
                                                                (
                                                                    AnimatedLevelPartV {
                                                                        effect_storages,
                                                                        light_refs,
                                                                        collision,
                                                                        nav_mesh,
                                                                        children,
                                                                        ..acc
                                                                    },
                                                                    q11,
                                                                ),
                                                            ),
                                                        }
                                                    }
                                                },
                                            },
                                        }
                                    },
                                },
                            }
                        },
                    },
                },
            },
        },
    }
}

pub open spec fn sp_animated_parts(d: Seq<u8>, p: int, names: Seq<Seq<char>>, n: nat) -> Option<
    (Seq<AnimatedLevelPartV>, int),
>
    decreases d.len() - p, 4int, n,
{
    if n == 0 {
        Some((Seq::empty(), p))
    } else {
        match sp_animated_part(d, p, names) {
            None => None,
            Some((v, p1)) => {
                if p < p1 <= d.len() {
                    match sp_animated_parts(d, p1, names, (n - 1) as nat) {
                        None => None,
                        Some((vs, p2)) => Some((Seq::empty().push(v) + vs, p2)),
                    }
                } else {
                    None
                }
            },
        }
    }
}

// ------------------------------------------------ flat-list exec readers --

fn read_mesh_settings(rd: &mut Reader, n: u32) -> (r: Result<Vec<MeshSetting>, DecodeError>)
    requires
        old(rd).wf(),
    ensures
        final(rd).wf(),
        final(rd).data@ == old(rd).data@,
        r is Ok ==> final(rd).pos >= old(rd).pos,
        match r {
            Ok(v) => sp_mesh_settings(old(rd).data@, old(rd).pos as int, n as nat) == Some(
                (v@.map_values(|x: MeshSetting| x@), final(rd).pos as int),
            ),
            Err(_) => sp_mesh_settings(old(rd).data@, old(rd).pos as int, n as nat) is None,
        },
{
    let ghost d = old(rd).data@;
    let ghost p0 = old(rd).pos as int;
    let mut out: Vec<MeshSetting> = Vec::new();
    let mut i: u32 = 0;
    while i < n
        invariant
            rd.wf(),
            rd.data@ == d,
            d == old(rd).data@,
            p0 == old(rd).pos,
            p0 <= rd.pos,
            i <= n,
            out@.len() == i,
            sp_mesh_settings(d, p0, n as nat) == match sp_mesh_settings(
                d,
                rd.pos as int,
                (n - i) as nat,
            ) {
                None => None::<(Seq<MeshSettingV>, int)>,
                Some((vs, pe)) => Some((out@.map_values(|x: MeshSetting| x@) + vs, pe)),
            },
        decreases n - i,
    {
        let name = match rd.read_string() {
            Ok(v) => v,
            Err(e) => {
                return Err(e);
            },
        };
        let flag1 = match rd.read_bool() {
            Ok(v) => v,
            Err(e) => {
                return Err(e);
            },
        };
        let flag2 = match rd.read_bool() {
            Ok(v) => v,
            Err(e) => {
                return Err(e);
            },
        };
        let item = MeshSetting { name, flag1, flag2 };
        proof {
            match sp_mesh_settings(d, rd.pos as int, (n - i - 1) as nat) {
                Some((vs, pe)) => {
                    assert(out@.push(item).map_values(|x: MeshSetting| x@) + vs
                        =~= out@.map_values(|x: MeshSetting| x@) + (Seq::empty().push(item@)
                        + vs));
                },
                None => {},
            }
        }
        out.push(item);
        i = i + 1;
    }
    proof {
        assert(out@.map_values(|x: MeshSetting| x@) + Seq::<MeshSettingV>::empty()
            =~= out@.map_values(|x: MeshSetting| x@));
    }
    Ok(out)
}

pub open spec fn sp_locators_n(d: Seq<u8>, p: int, n: nat) -> Option<(Seq<LocatorV>, int)>
    decreases n,
{
    if n == 0 {
        Some((Seq::empty(), p))
    } else {
        match sp_locator(d, p) {
            None => None,
            Some((v, p1)) => match sp_locators_n(d, p1, (n - 1) as nat) {
                None => None,
                Some((vs, p2)) => Some((Seq::empty().push(v) + vs, p2)),
            },
        }
    }
}

fn read_locators(rd: &mut Reader, n: u32) -> (r: Result<Vec<Locator>, DecodeError>)
    requires
        old(rd).wf(),
    ensures
        final(rd).wf(),
        final(rd).data@ == old(rd).data@,
        r is Ok ==> final(rd).pos >= old(rd).pos,
        match r {
            Ok(v) => sp_locators_n(old(rd).data@, old(rd).pos as int, n as nat) == Some(
                (v@.map_values(|x: Locator| x@), final(rd).pos as int),
            ),
            Err(_) => sp_locators_n(old(rd).data@, old(rd).pos as int, n as nat) is None,
        },
{
    let ghost d = old(rd).data@;
    let ghost p0 = old(rd).pos as int;
    let mut out: Vec<Locator> = Vec::new();
    let mut i: u32 = 0;
    while i < n
        invariant
            rd.wf(),
            rd.data@ == d,
            d == old(rd).data@,
            p0 == old(rd).pos,
            p0 <= rd.pos,
            i <= n,
            out@.len() == i,
            sp_locators_n(d, p0, n as nat) == match sp_locators_n(
                d,
                rd.pos as int,
                (n - i) as nat,
            ) {
                None => None::<(Seq<LocatorV>, int)>,
                Some((vs, pe)) => Some((out@.map_values(|x: Locator| x@) + vs, pe)),
            },
        decreases n - i,
    {
        let item = match Locator::read(rd) {
            Ok(v) => v,
            Err(e) => {
                return Err(e);
            },
        };
        proof {
            match sp_locators_n(d, rd.pos as int, (n - i - 1) as nat) {
                Some((vs, pe)) => {
                    assert(out@.push(item).map_values(|x: Locator| x@) + vs =~= out@.map_values(
                        |x: Locator| x@,
                    ) + (Seq::empty().push(item@) + vs));
                },
                None => {},
            }
        }
        out.push(item);
        i = i + 1;
    }
    proof {
        assert(out@.map_values(|x: Locator| x@) + Seq::<LocatorV>::empty() =~= out@.map_values(
            |x: Locator| x@,
        ));
    }
    Ok(out)
}

pub open spec fn sp_effect_storages_n(d: Seq<u8>, p: int, n: nat) -> Option<
    (Seq<EffectStorageV>, int),
>
    decreases n,
{
    if n == 0 {
        Some((Seq::empty(), p))
    } else {
        match sp_effect_storage(d, p) {
            None => None,
            Some((v, p1)) => match sp_effect_storages_n(d, p1, (n - 1) as nat) {
                None => None,
                Some((vs, p2)) => Some((Seq::empty().push(v) + vs, p2)),
            },
        }
    }
}

fn read_effect_storages(rd: &mut Reader, n: u32) -> (r: Result<Vec<EffectStorage>, DecodeError>)
    requires
        old(rd).wf(),
    ensures
        final(rd).wf(),
        final(rd).data@ == old(rd).data@,
        r is Ok ==> final(rd).pos >= old(rd).pos,
        match r {
            Ok(v) => sp_effect_storages_n(old(rd).data@, old(rd).pos as int, n as nat) == Some(
                (v@.map_values(|x: EffectStorage| x@), final(rd).pos as int),
            ),
            Err(_) => sp_effect_storages_n(old(rd).data@, old(rd).pos as int, n as nat) is None,
        },
{
    let ghost d = old(rd).data@;
    let ghost p0 = old(rd).pos as int;
    let mut out: Vec<EffectStorage> = Vec::new();
    let mut i: u32 = 0;
    while i < n
        invariant
            rd.wf(),
            rd.data@ == d,
            d == old(rd).data@,
            p0 == old(rd).pos,
            p0 <= rd.pos,
            i <= n,
            out@.len() == i,
            sp_effect_storages_n(d, p0, n as nat) == match sp_effect_storages_n(
                d,
                rd.pos as int,
                (n - i) as nat,
            ) {
                None => None::<(Seq<EffectStorageV>, int)>,
                Some((vs, pe)) => Some((out@.map_values(|x: EffectStorage| x@) + vs, pe)),
            },
        decreases n - i,
    {
        let item = match EffectStorage::read(rd) {
            Ok(v) => v,
            Err(e) => {
                return Err(e);
            },
        };
        proof {
            match sp_effect_storages_n(d, rd.pos as int, (n - i - 1) as nat) {
                Some((vs, pe)) => {
                    assert(out@.push(item).map_values(|x: EffectStorage| x@) + vs
                        =~= out@.map_values(|x: EffectStorage| x@) + (Seq::empty().push(item@)
                        + vs));
                },
                None => {},
            }
        }
        out.push(item);
        i = i + 1;
    }
    proof {
        assert(out@.map_values(|x: EffectStorage| x@) + Seq::<EffectStorageV>::empty()
            =~= out@.map_values(|x: EffectStorage| x@));
    }
    Ok(out)
}

pub open spec fn sp_light_refs_n(d: Seq<u8>, p: int, n: nat) -> Option<
    (Seq<LevelModelLightRefV>, int),
>
    decreases n,
{
    if n == 0 {
        Some((Seq::empty(), p))
    } else {
        match sp_light_ref(d, p) {
            None => None,
            Some((v, p1)) => match sp_light_refs_n(d, p1, (n - 1) as nat) {
                None => None,
                Some((vs, p2)) => Some((Seq::empty().push(v) + vs, p2)),
            },
        }
    }
}

fn read_light_refs(rd: &mut Reader, n: u32) -> (r: Result<Vec<LevelModelLightRef>, DecodeError>)
    requires
        old(rd).wf(),
    ensures
        final(rd).wf(),
        final(rd).data@ == old(rd).data@,
        r is Ok ==> final(rd).pos >= old(rd).pos,
        match r {
            Ok(v) => sp_light_refs_n(old(rd).data@, old(rd).pos as int, n as nat) == Some(
                (v@.map_values(|x: LevelModelLightRef| x@), final(rd).pos as int),
            ),
            Err(_) => sp_light_refs_n(old(rd).data@, old(rd).pos as int, n as nat) is None,
        },
{
    let ghost d = old(rd).data@;
    let ghost p0 = old(rd).pos as int;
    let mut out: Vec<LevelModelLightRef> = Vec::new();
    let mut i: u32 = 0;
    while i < n
        invariant
            rd.wf(),
            rd.data@ == d,
            d == old(rd).data@,
            p0 == old(rd).pos,
            p0 <= rd.pos,
            i <= n,
            out@.len() == i,
            sp_light_refs_n(d, p0, n as nat) == match sp_light_refs_n(
                d,
                rd.pos as int,
                (n - i) as nat,
            ) {
                None => None::<(Seq<LevelModelLightRefV>, int)>,
                Some((vs, pe)) => Some((out@.map_values(|x: LevelModelLightRef| x@) + vs, pe)),
            },
        decreases n - i,
    {
        let item = match LevelModelLightRef::read(rd) {
            Ok(v) => v,
            Err(e) => {
                return Err(e);
            },
        };
        proof {
            match sp_light_refs_n(d, rd.pos as int, (n - i - 1) as nat) {
                Some((vs, pe)) => {
                    assert(out@.push(item).map_values(|x: LevelModelLightRef| x@) + vs
                        =~= out@.map_values(|x: LevelModelLightRef| x@) + (Seq::empty().push(
                        item@,
                    ) + vs));
                },
                None => {},
            }
        }
        out.push(item);
        i = i + 1;
    }
    proof {
        assert(out@.map_values(|x: LevelModelLightRef| x@) + Seq::<LevelModelLightRefV>::empty()
            =~= out@.map_values(|x: LevelModelLightRef| x@));
    }
    Ok(out)
}

pub open spec fn sp_lights_n(d: Seq<u8>, p: int, n: nat) -> Option<(Seq<LevelModelLightV>, int)>
    decreases n,
{
    if n == 0 {
        Some((Seq::empty(), p))
    } else {
        match sp_light(d, p) {
            None => None,
            Some((v, p1)) => match sp_lights_n(d, p1, (n - 1) as nat) {
                None => None,
                Some((vs, p2)) => Some((Seq::empty().push(v) + vs, p2)),
            },
        }
    }
}

fn read_lights(rd: &mut Reader, n: u32) -> (r: Result<Vec<LevelModelLight>, DecodeError>)
    requires
        old(rd).wf(),
    ensures
        final(rd).wf(),
        final(rd).data@ == old(rd).data@,
        r is Ok ==> final(rd).pos >= old(rd).pos,
        match r {
            Ok(v) => sp_lights_n(old(rd).data@, old(rd).pos as int, n as nat) == Some(
                (v@.map_values(|x: LevelModelLight| x@), final(rd).pos as int),
            ),
            Err(_) => sp_lights_n(old(rd).data@, old(rd).pos as int, n as nat) is None,
        },
{
    let ghost d = old(rd).data@;
    let ghost p0 = old(rd).pos as int;
    let mut out: Vec<LevelModelLight> = Vec::new();
    let mut i: u32 = 0;
    while i < n
        invariant
            rd.wf(),
            rd.data@ == d,
            d == old(rd).data@,
            p0 == old(rd).pos,
            p0 <= rd.pos,
            i <= n,
            out@.len() == i,
            sp_lights_n(d, p0, n as nat) == match sp_lights_n(d, rd.pos as int, (n - i) as nat) {
                None => None::<(Seq<LevelModelLightV>, int)>,
                Some((vs, pe)) => Some((out@.map_values(|x: LevelModelLight| x@) + vs, pe)),
            },
        decreases n - i,
    {
        let item = match LevelModelLight::read(rd) {
            Ok(v) => v,
            Err(e) => {
                return Err(e);
            },
        };
        proof {
            match sp_lights_n(d, rd.pos as int, (n - i - 1) as nat) {
                Some((vs, pe)) => {
                    assert(out@.push(item).map_values(|x: LevelModelLight| x@) + vs
                        =~= out@.map_values(|x: LevelModelLight| x@) + (Seq::empty().push(item@)
                        + vs));
                },
                None => {},
            }
        }
        out.push(item);
        i = i + 1;
    }
    proof {
        assert(out@.map_values(|x: LevelModelLight| x@) + Seq::<LevelModelLightV>::empty()
            =~= out@.map_values(|x: LevelModelLight| x@));
    }
    Ok(out)
}

pub open spec fn sp_physics_n(d: Seq<u8>, p: int, n: nat) -> Option<
    (Seq<PhysicsEntityStorageV>, int),
>
    decreases n,
{
    if n == 0 {
        Some((Seq::empty(), p))
    } else {
        match sp_physics_storage(d, p) {
            None => None,
            Some((v, p1)) => match sp_physics_n(d, p1, (n - 1) as nat) {
                None => None,
                Some((vs, p2)) => Some((Seq::empty().push(v) + vs, p2)),
            },
        }
    }
}

fn read_physics_storages(rd: &mut Reader, n: u32) -> (r: Result<
    Vec<PhysicsEntityStorage>,
    DecodeError,
>)
    requires
        old(rd).wf(),
    ensures
        final(rd).wf(),
        final(rd).data@ == old(rd).data@,
        r is Ok ==> final(rd).pos >= old(rd).pos,
        match r {
            Ok(v) => sp_physics_n(old(rd).data@, old(rd).pos as int, n as nat) == Some(
                (v@.map_values(|x: PhysicsEntityStorage| x@), final(rd).pos as int),
            ),
            Err(_) => sp_physics_n(old(rd).data@, old(rd).pos as int, n as nat) is None,
        },
{
    let ghost d = old(rd).data@;
    let ghost p0 = old(rd).pos as int;
    let mut out: Vec<PhysicsEntityStorage> = Vec::new();
    let mut i: u32 = 0;
    while i < n
        invariant
            rd.wf(),
            rd.data@ == d,
            d == old(rd).data@,
            p0 == old(rd).pos,
            p0 <= rd.pos,
            i <= n,
            out@.len() == i,
            sp_physics_n(d, p0, n as nat) == match sp_physics_n(d, rd.pos as int, (n - i) as nat) {
                None => None::<(Seq<PhysicsEntityStorageV>, int)>,
                Some((vs, pe)) => Some((out@.map_values(|x: PhysicsEntityStorage| x@) + vs, pe)),
            },
        decreases n - i,
    {
        let item = match PhysicsEntityStorage::read(rd) {
            Ok(v) => v,
            Err(e) => {
                return Err(e);
            },
        };
        proof {
            match sp_physics_n(d, rd.pos as int, (n - i - 1) as nat) {
                Some((vs, pe)) => {
                    assert(out@.push(item).map_values(|x: PhysicsEntityStorage| x@) + vs
                        =~= out@.map_values(|x: PhysicsEntityStorage| x@) + (Seq::empty().push(
                        item@,
                    ) + vs));
                },
                None => {},
            }
        }
        out.push(item);
        i = i + 1;
    }
    proof {
        assert(out@.map_values(|x: PhysicsEntityStorage| x@)
            + Seq::<PhysicsEntityStorageV>::empty() =~= out@.map_values(
            |x: PhysicsEntityStorage| x@,
        ));
    }
    Ok(out)
}

pub open spec fn sp_trigger_areas_n(d: Seq<u8>, p: int, n: nat) -> Option<(Seq<TriggerAreaV>, int)>
    decreases n,
{
    if n == 0 {
        Some((Seq::empty(), p))
    } else {
        match sp_trigger_area(d, p) {
            None => None,
            Some((v, p1)) => match sp_trigger_areas_n(d, p1, (n - 1) as nat) {
                None => None,
                Some((vs, p2)) => Some((Seq::empty().push(v) + vs, p2)),
            },
        }
    }
}

fn read_trigger_areas(rd: &mut Reader, n: u32) -> (r: Result<Vec<TriggerArea>, DecodeError>)
    requires
        old(rd).wf(),
    ensures
        final(rd).wf(),
        final(rd).data@ == old(rd).data@,
        r is Ok ==> final(rd).pos >= old(rd).pos,
        match r {
            Ok(v) => sp_trigger_areas_n(old(rd).data@, old(rd).pos as int, n as nat) == Some(
                (v@.map_values(|x: TriggerArea| x@), final(rd).pos as int),
            ),
            Err(_) => sp_trigger_areas_n(old(rd).data@, old(rd).pos as int, n as nat) is None,
        },
{
    let ghost d = old(rd).data@;
    let ghost p0 = old(rd).pos as int;
    let mut out: Vec<TriggerArea> = Vec::new();
    let mut i: u32 = 0;
    while i < n
        invariant
            rd.wf(),
            rd.data@ == d,
            d == old(rd).data@,
            p0 == old(rd).pos,
            p0 <= rd.pos,
            i <= n,
            out@.len() == i,
            sp_trigger_areas_n(d, p0, n as nat) == match sp_trigger_areas_n(
                d,
                rd.pos as int,
                (n - i) as nat,
            ) {
                None => None::<(Seq<TriggerAreaV>, int)>,
                Some((vs, pe)) => Some((out@.map_values(|x: TriggerArea| x@) + vs, pe)),
            },
        decreases n - i,
    {
        let item = match TriggerArea::read(rd) {
            Ok(v) => v,
            Err(e) => {
                return Err(e);
            },
        };
        proof {
            match sp_trigger_areas_n(d, rd.pos as int, (n - i - 1) as nat) {
                Some((vs, pe)) => {
                    assert(out@.push(item).map_values(|x: TriggerArea| x@) + vs
                        =~= out@.map_values(|x: TriggerArea| x@) + (Seq::empty().push(item@)
                        + vs));
                },
                None => {},
            }
        }
        out.push(item);
        i = i + 1;
    }
    proof {
        assert(out@.map_values(|x: TriggerArea| x@) + Seq::<TriggerAreaV>::empty()
            =~= out@.map_values(|x: TriggerArea| x@));
    }
    Ok(out)
}

// ------------------------------------------------- family exec readers --

fn read_force_fields(rd: &mut Reader, type_readers: &[TypeReader], n: u32) -> (r: Result<
    Vec<ForceField>,
    DecodeError,
>)
    requires
        old(rd).wf(),
    ensures
        final(rd).wf(),
        final(rd).data@ == old(rd).data@,
        r is Ok ==> final(rd).pos >= old(rd).pos,
        match r {
            Ok(v) => sp_force_fields(
                old(rd).data@,
                old(rd).pos as int,
                sp_names(type_readers@),
                n as nat,
            ) == Some((v@.map_values(|x: ForceField| x@), final(rd).pos as int)),
            Err(_) => sp_force_fields(
                old(rd).data@,
                old(rd).pos as int,
                sp_names(type_readers@),
                n as nat,
            ) is None,
        },
    decreases old(rd).data@.len() - old(rd).pos, 1int,
{
    let ghost d = old(rd).data@;
    let ghost p0 = old(rd).pos as int;
    let ghost names = sp_names(type_readers@);
    let mut out: Vec<ForceField> = Vec::new();
    let mut i: u32 = 0;
    while i < n
        invariant
            rd.wf(),
            rd.data@ == d,
            d == old(rd).data@,
            p0 <= rd.pos,
            p0 == old(rd).pos,
            p0 <= rd.pos,
            names == sp_names(type_readers@),
            i <= n,
            out@.len() == i,
            sp_force_fields(d, p0, names, n as nat) == match sp_force_fields(
                d,
                rd.pos as int,
                names,
                (n - i) as nat,
            ) {
                None => None::<(Seq<ForceFieldV>, int)>,
                Some((vs, pe)) => Some((out@.map_values(|x: ForceField| x@) + vs, pe)),
            },
        decreases n - i,
    {
        let item = match ForceField::read(rd, type_readers) {
            Ok(v) => v,
            Err(e) => {
                return Err(e);
            },
        };
        proof {
            match sp_force_fields(d, rd.pos as int, names, (n - i - 1) as nat) {
                Some((vs, pe)) => {
                    assert(out@.push(item).map_values(|x: ForceField| x@) + vs
                        =~= out@.map_values(|x: ForceField| x@) + (Seq::empty().push(item@)
                        + vs));
                },
                None => {},
            }
        }
        out.push(item);
        i = i + 1;
    }
    proof {
        assert(out@.map_values(|x: ForceField| x@) + Seq::<ForceFieldV>::empty()
            =~= out@.map_values(|x: ForceField| x@));
    }
    Ok(out)
}

fn read_animated_parts(rd: &mut Reader, type_readers: &[TypeReader], n: u32) -> (r: Result<
    Vec<AnimatedLevelPart>,
    DecodeError,
>)
    requires
        old(rd).wf(),
    ensures
        final(rd).wf(),
        final(rd).data@ == old(rd).data@,
        r is Ok ==> final(rd).pos >= old(rd).pos,
        match r {
            Ok(v) => sp_animated_parts(
                old(rd).data@,
                old(rd).pos as int,
                sp_names(type_readers@),
                n as nat,
            ) == Some((sp_view_parts_seq(v@), final(rd).pos as int)),
            Err(_) => sp_animated_parts(
                old(rd).data@,
                old(rd).pos as int,
                sp_names(type_readers@),
                n as nat,
            ) is None,
        },
    decreases old(rd).data@.len() - old(rd).pos, 1int,
{
    let ghost d = old(rd).data@;
    let ghost p0 = old(rd).pos as int;
    let ghost names = sp_names(type_readers@);
    let mut out: Vec<AnimatedLevelPart> = Vec::new();
    let mut i: u32 = 0;
    while i < n
        invariant
            rd.wf(),
            rd.data@ == d,
            d == old(rd).data@,
            p0 == old(rd).pos,
            p0 <= rd.pos,
            rd.pos >= p0,
            names == sp_names(type_readers@),
            i <= n,
            out@.len() == i,
            sp_animated_parts(d, p0, names, n as nat) == match sp_animated_parts(
                d,
                rd.pos as int,
                names,
                (n - i) as nat,
            ) {
                None => None::<(Seq<AnimatedLevelPartV>, int)>,
                Some((vs, pe)) => Some((sp_view_parts_seq(out@) + vs, pe)),
            },
        decreases n - i,
    {
        let item = match AnimatedLevelPart::read(rd, type_readers) {
            Ok(v) => v,
            Err(e) => {
                return Err(e);
            },
        };
        proof {
            assert(sp_view_parts_seq(out@.push(item)) =~= sp_view_parts_seq(out@).push(item@))
                by {
                assert(out@.push(item).drop_last() =~= out@);
                assert(out@.push(item).last() == item);
            }
            match sp_animated_parts(d, rd.pos as int, names, (n - i - 1) as nat) {
                Some((vs, pe)) => {
                    assert(sp_view_parts_seq(out@.push(item)) + vs =~= sp_view_parts_seq(out@) + (
                    Seq::empty().push(item@) + vs));
                },
                None => {},
            }
        }
        out.push(item);
        i = i + 1;
    }
    proof {
        assert(sp_view_parts_seq(out@) + Seq::<AnimatedLevelPartV>::empty() =~= sp_view_parts_seq(
            out@,
        ));
    }
    Ok(out)
}

impl AnimatedLevelPart {
    #[verifier::rlimit(100)]
    pub fn read(rd: &mut Reader, type_readers: &[TypeReader]) -> (r: Result<
        AnimatedLevelPart,
        DecodeError,
    >)
        requires
            old(rd).wf(),
        ensures
            final(rd).wf(),
            final(rd).data@ == old(rd).data@,
            match r {
                Ok(v) => sp_animated_part(
                    old(rd).data@,
                    old(rd).pos as int,
                    sp_names(type_readers@),
                ) == Some((v@, final(rd).pos as int)) && final(rd).pos > old(rd).pos,
                Err(_) => sp_animated_part(
                    old(rd).data@,
                    old(rd).pos as int,
                    sp_names(type_readers@),
                ) is None,
            },
        decreases old(rd).data@.len() - old(rd).pos, 0int,
    {
        let name = match rd.read_string() {
            Ok(v) => v,
            Err(e) => {
                return Err(e);
            },
        };
        let affect_shields = match rd.read_bool() {
            Ok(v) => v,
            Err(e) => {
                return Err(e);
            },
        };
        let model = match XnbAsset::read(rd, type_readers) {
            Ok(XnbAsset::Model(v)) => v,
            Ok(_) => {
                return Err(DecodeError::UnexpectedAsset);
            },
            Err(e) => {
                return Err(e);
            },
        };
        let ns = match rd.read_i32le() {
            Ok(v) => v,
            Err(e) => {
                return Err(e);
            },
        };
        let mesh_settings = match read_mesh_settings(rd, if ns < 0 { 0 } else { ns as u32 }) {
            Ok(v) => v,
            Err(e) => {
                return Err(e);
            },
        };
        let nl = match rd.read_i32le() {
            Ok(v) => v,
            Err(e) => {
                return Err(e);
            },
        };
        let liquids = match read_liquids(rd, if nl < 0 { 0 } else { nl as u32 }) {
            Ok(v) => v,
            Err(e) => {
                return Err(e);
            },
        };
        let nloc = match rd.read_i32le() {
            Ok(v) => v,
            Err(e) => {
                return Err(e);
            },
        };
        let locators = match read_locators(rd, if nloc < 0 { 0 } else { nloc as u32 }) {
            Ok(v) => v,
            Err(e) => {
                return Err(e);
            },
        };
        let animation_duration = match rd.read_f32bits() {
            Ok(v) => v,
            Err(e) => {
                return Err(e);
            },
        };
        let animation = match AnimationChannel::read(rd) {
            Ok(v) => v,
            Err(e) => {
                return Err(e);
            },
        };
        let nes = match rd.read_i32le() {
            Ok(v) => v,
            Err(e) => {
                return Err(e);
            },
        };
        let effect_storages = match read_effect_storages(rd, if nes < 0 { 0 } else { nes as u32 }) {
            Ok(v) => v,
            Err(e) => {
                return Err(e);
            },
        };
        let nlr = match rd.read_i32le() {
            Ok(v) => v,
            Err(e) => {
                return Err(e);
            },
        };
        let light_refs = match read_light_refs(rd, if nlr < 0 { 0 } else { nlr as u32 }) {
            Ok(v) => v,
            Err(e) => {
                return Err(e);
            },
        };
        let has_col = match rd.read_bool() {
            Ok(v) => v,
            Err(e) => {
                return Err(e);
            },
        };
        let collision = if has_col {
            let material = match CollisionMaterial::read(rd) {
                Ok(v) => v,
                Err(e) => {
                    return Err(e);
                },
            };
            let mesh = match TriangleMesh::read(rd, type_readers) {
                Ok(v) => v,
                Err(e) => {
                    return Err(e);
                },
            };
            Some(AnimatedLevelPartCollision { material, mesh })
        } else {
            None
        };
        let has_nav = match rd.read_bool() {
            Ok(v) => v,
            Err(e) => {
                return Err(e);
            },
        };
        let nav_mesh = if has_nav {
            match NavMesh::read(rd) {
                Ok(v) => Some(v),
                Err(e) => {
                    return Err(e);
                },
            }
        } else {
            None
        };
        let nc = match rd.read_i32le() {
            Ok(v) => v,
            Err(e) => {
                return Err(e);
            },
        };
        let children = match read_animated_parts(rd, type_readers, if nc < 0 { 0 } else { nc as u32 }) {
            Ok(v) => v,
            Err(e) => {
                return Err(e);
            },
        };
        Ok(
            AnimatedLevelPart {
                name,
                affect_shields,
                model,
                mesh_settings,
                liquids,
                locators,
                animation_duration,
                animation,
                effect_storages,
                light_refs,
                collision,
                nav_mesh,
                children,
            },
        )
    }
}

// ----------------------------------------------------- the level model --

/// Up to ten collision meshes, each gated by a presence flag; the absent
/// slots contribute nothing.
pub open spec fn sp_collision_meshes(d: Seq<u8>, p: int, names: Seq<Seq<char>>, k: nat) -> Option<
    (Seq<TriangleMeshV>, int),
>
    decreases k,
{
    if k == 0 {
        Some((Seq::empty(), p))
    } else {
        match sp_bool(d, p) {
            None => None,
            Some((present, p1)) => {
                if !present {
                    sp_collision_meshes(d, p1, names, (k - 1) as nat)
                } else {
                    match sp_triangle_mesh(d, p1, names) {
                        None => None,
                        Some((m, p2)) => match sp_collision_meshes(d, p2, names, (k - 1) as nat) {
                            None => None,
                            Some((ms, p3)) => Some((Seq::empty().push(m) + ms, p3)),
                        },
                    }
                }
            },
        }
    }
}

fn read_collision_meshes(rd: &mut Reader, type_readers: &[TypeReader]) -> (r: Result<
    Vec<TriangleMesh>,
    DecodeError,
>)
    requires
        old(rd).wf(),
    ensures
        final(rd).wf(),
        final(rd).data@ == old(rd).data@,
        r is Ok ==> final(rd).pos >= old(rd).pos,
        match r {
            Ok(v) => sp_collision_meshes(
                old(rd).data@,
                old(rd).pos as int,
                sp_names(type_readers@),
                10,
            ) == Some((v@.map_values(|x: TriangleMesh| x@), final(rd).pos as int)),
            Err(_) => sp_collision_meshes(
                old(rd).data@,
                old(rd).pos as int,
                sp_names(type_readers@),
                10,
            ) is None,
        },
{
    let ghost d = old(rd).data@;
    let ghost p0 = old(rd).pos as int;
    let ghost names = sp_names(type_readers@);
    let mut out: Vec<TriangleMesh> = Vec::new();
    let mut i: u32 = 0;
    while i < 10
        invariant
            rd.wf(),
            rd.data@ == d,
            d == old(rd).data@,
            p0 == old(rd).pos,
            p0 <= rd.pos,
            names == sp_names(type_readers@),
            i <= 10,
            sp_collision_meshes(d, p0, names, 10) == match sp_collision_meshes(
                d,
                rd.pos as int,
                names,
                (10 - i) as nat,
            ) {
                None => None::<(Seq<TriangleMeshV>, int)>,
                Some((vs, pe)) => Some((out@.map_values(|x: TriangleMesh| x@) + vs, pe)),
            },
        decreases 10 - i,
    {
        let present = match rd.read_bool() {
            Ok(v) => v,
            Err(e) => {
                return Err(e);
            },
        };
        if present {
            let mesh = match TriangleMesh::read(rd, type_readers) {
                Ok(v) => v,
                Err(e) => {
                    return Err(e);
                },
            };
            proof {
                match sp_collision_meshes(d, rd.pos as int, names, (10 - i - 1) as nat) {
                    Some((vs, pe)) => {
                        assert(out@.push(mesh).map_values(|x: TriangleMesh| x@) + vs
                            =~= out@.map_values(|x: TriangleMesh| x@) + (Seq::empty().push(mesh@)
                            + vs));
                    },
                    None => {},
                }
            }
            out.push(mesh);
        }
        i = i + 1;
    }
    proof {
        assert(out@.map_values(|x: TriangleMesh| x@) + Seq::<TriangleMeshV>::empty()
            =~= out@.map_values(|x: TriangleMesh| x@));
    }
    Ok(out)
}

/// The composite level asset: geometry trees, animated parts, lights,
/// effect and physics placements, force fields, collision and camera
/// meshes, trigger volumes, locators, and the navigation mesh.
#[derive(Debug)]
pub struct LevelModel {
    pub model: BiTreeModel,
    pub animated_parts: Vec<AnimatedLevelPart>,
    pub lights: Vec<LevelModelLight>,
    pub effect_storages: Vec<EffectStorage>,
    pub physics_entity_storages: Vec<PhysicsEntityStorage>,
    pub liquids: Vec<Liquid>,
    pub force_fields: Vec<ForceField>,
    pub collision_meshes: Vec<TriangleMesh>,
    pub camera_mesh: Option<TriangleMesh>,
    pub trigger_areas: Vec<TriggerArea>,
    pub locators: Vec<Locator>,
    pub nav_mesh: NavMesh,
}

pub struct LevelModelV {
    pub model: BiTreeModelV,
    pub animated_parts: Seq<AnimatedLevelPartV>,
    pub lights: Seq<LevelModelLightV>,
    pub effect_storages: Seq<EffectStorageV>,
    pub physics_entity_storages: Seq<PhysicsEntityStorageV>,
    pub liquids: Seq<LiquidV>,
    pub force_fields: Seq<ForceFieldV>,
    pub collision_meshes: Seq<TriangleMeshV>,
    pub camera_mesh: Option<TriangleMeshV>,
    pub trigger_areas: Seq<TriggerAreaV>,
    pub locators: Seq<LocatorV>,
    pub nav_mesh: NavMeshV,
}

/// The abstract value of a level.
pub open spec fn sp_view_level_model(lm: LevelModel) -> LevelModelV
    decreases lm,
{
    LevelModelV {
        model: crate::xnb::asset::bi_tree_model::sp_view_bi_tree_model(lm.model),
        animated_parts: sp_view_parts_vec(lm.animated_parts),
        lights: lm.lights@.map_values(|x: LevelModelLight| x@),
        effect_storages: lm.effect_storages@.map_values(|x: EffectStorage| x@),
        physics_entity_storages: lm.physics_entity_storages@.map_values(
            |x: PhysicsEntityStorage| x@,
        ),
        liquids: lm.liquids@.map_values(|x: Liquid| x@),
        force_fields: lm.force_fields@.map_values(|x: ForceField| x@),
        collision_meshes: lm.collision_meshes@.map_values(|x: TriangleMesh| x@),
        camera_mesh: match lm.camera_mesh {
            Some(m) => Some(m@),
            None => None,
        },
        trigger_areas: lm.trigger_areas@.map_values(|x: TriggerArea| x@),
        locators: lm.locators@.map_values(|x: Locator| x@),
        nav_mesh: lm.nav_mesh@,
    }
}

impl View for LevelModel {
    type V = LevelModelV;

    open spec fn view(&self) -> LevelModelV {
        sp_view_level_model(*self)
    }
}

/// The middle sections of a level: lights, effect and physics placements,
/// liquids, and force fields.
pub struct LevelMidV {
    pub lights: Seq<LevelModelLightV>,
    pub effect_storages: Seq<EffectStorageV>,
    pub physics_entity_storages: Seq<PhysicsEntityStorageV>,
    pub liquids: Seq<LiquidV>,
    pub force_fields: Seq<ForceFieldV>,
}

pub open spec fn sp_level_mid(d: Seq<u8>, p: int, names: Seq<Seq<char>>) -> Option<
    (LevelMidV, int),
>
    decreases d.len() - p, 5int,
{
    match sp_i32le(d, p) {
        None => None,
        Some((nli, p1)) => match sp_lights_n(d, p1, sp_count(nli)) {
            None => None,
            Some((lights, p2)) => match sp_i32le(d, p2) {
                None => None,
                Some((nes, p3)) => match sp_effect_storages_n(d, p3, sp_count(nes)) {
                    None => None,
                    Some((effect_storages, p4)) => match sp_i32le(d, p4) {
                        None => None,
                        Some((nps, p5)) => match sp_physics_n(d, p5, sp_count(nps)) {
                            None => None,
                            Some((physics, p6)) => match sp_i32le(d, p6) {
                                None => None,
                                Some((nlq, p7)) => match sp_liquids(d, p7, sp_count(nlq)) {
                                    None => None,
                                    Some((liquids, p8)) => match sp_i32le(d, p8) {
                                        None => None,
                                        Some((nff, p9)) => {
                                            if !(p < p9 <= d.len()) {
                                                None
                                            } else {
                                                match sp_force_fields(
                                                    d,
                                                    p9,
                                                    names,
                                                    sp_count(nff),
                                                ) {
                                                    None => None,
                                                    Some((force_fields, p10)) => Some(
                                                        (
                                                            LevelMidV {
                                                                lights,
                                                                effect_storages,
                                                                physics_entity_storages: physics,
                                                                liquids,
                                                                force_fields,
                                                            },
                                                            p10,
                                                        ),
                                                    ),
                                                }
                                            }
                                        },
                                    },
                                },
                            },
                        },
                    },
                },
            },
        },
    }
}

pub open spec fn sp_level_model(d: Seq<u8>, p: int, names: Seq<Seq<char>>) -> Option<
    (LevelModelV, int),
>
    decreases d.len() - p, 6int,
{
    match sp_asset(d, p, names) {
        None => None,
        Some((a0, p1)) => match a0 {
            AssetV::BiTreeModel(model) => match sp_i32le(d, p1) {
                None => None,
                Some((nap, p2)) => {
                    if !(p < p2 <= d.len()) {
                        None
                    } else {
                        match sp_animated_parts(d, p2, names, sp_count(nap)) {
                            None => None,
                            Some((animated_parts, p3)) => {
                                if !(p < p3 <= d.len()) {
                                    None
                                } else {
                                    match sp_level_mid(d, p3, names) {
                                        None => None,
                                        Some((mid, p4)) => sp_level_model_rest(
                                            d,
                                            p4,
                                            names,
                                            LevelModelV {
                                                model,
                                                animated_parts,
                                                lights: mid.lights,
                                                effect_storages: mid.effect_storages,
                                                physics_entity_storages:
                                                    mid.physics_entity_storages,
                                                liquids: mid.liquids,
                                                force_fields: mid.force_fields,
                                                collision_meshes: Seq::empty(),
                                                camera_mesh: None,
                                                trigger_areas: Seq::empty(),
                                                locators: Seq::empty(),
                                                nav_mesh: NavMeshV {
                                                    vertices: Seq::empty(),
                                                    triangles: Seq::empty(),
                                                },
                                            },
                                        ),
                                    }
                                }
                            },
                        }
                    }
                },
            },
            _ => None,
        },
    }
}

/// Reads the middle sections of a level.
#[verifier::rlimit(100)]
#[verifier::spinoff_prover]
fn read_level_mid(rd: &mut Reader, type_readers: &[TypeReader]) -> (r: Result<
    (
        Vec<LevelModelLight>,
        Vec<EffectStorage>,
        Vec<PhysicsEntityStorage>,
        Vec<Liquid>,
        Vec<ForceField>,
    ),
    DecodeError,
>)
    requires
        old(rd).wf(),
    ensures
        final(rd).wf(),
        final(rd).data@ == old(rd).data@,
        match r {
            Ok(v) => sp_level_mid(old(rd).data@, old(rd).pos as int, sp_names(type_readers@))
                == Some(
                (
                    LevelMidV {
                        lights: v.0@.map_values(|x: LevelModelLight| x@),
                        effect_storages: v.1@.map_values(|x: EffectStorage| x@),
                        physics_entity_storages: v.2@.map_values(|x: PhysicsEntityStorage| x@),
                        liquids: v.3@.map_values(|x: Liquid| x@),
                        force_fields: v.4@.map_values(|x: ForceField| x@),
                    },
                    final(rd).pos as int,
                ),
            ) && final(rd).pos >= old(rd).pos,
            Err(_) => sp_level_mid(
                old(rd).data@,
                old(rd).pos as int,
                sp_names(type_readers@),
            ) is None,
        },
    decreases old(rd).data@.len() - old(rd).pos, 2int,
{
    let nli = match rd.read_i32le() {
        Ok(v) => v,
        Err(e) => {
            return Err(e);
        },
    };
    let lights = match read_lights(rd, if nli < 0 { 0 } else { nli as u32 }) {
        Ok(v) => v,
        Err(e) => {
            return Err(e);
        },
    };
    let nes = match rd.read_i32le() {
        Ok(v) => v,
        Err(e) => {
            return Err(e);
        },
    };
    let effect_storages = match read_effect_storages(rd, if nes < 0 { 0 } else { nes as u32 }) {
        Ok(v) => v,
        Err(e) => {
            return Err(e);
        },
    };
    let nps = match rd.read_i32le() {
        Ok(v) => v,
        Err(e) => {
            return Err(e);
        },
    };
    let physics = match read_physics_storages(rd, if nps < 0 { 0 } else { nps as u32 }) {
        Ok(v) => v,
        Err(e) => {
            return Err(e);
        },
    };
    let nlq = match rd.read_i32le() {
        Ok(v) => v,
        Err(e) => {
            return Err(e);
        },
    };
    let liquids = match read_liquids(rd, if nlq < 0 { 0 } else { nlq as u32 }) {
        Ok(v) => v,
        Err(e) => {
            return Err(e);
        },
    };
    let nff = match rd.read_i32le() {
        Ok(v) => v,
        Err(e) => {
            return Err(e);
        },
    };
    let force_fields = match read_force_fields(
        rd,
        type_readers,
        if nff < 0 {
            0
        } else {
            nff as u32
        },
    ) {
        Ok(v) => v,
        Err(e) => {
            return Err(e);
        },
    };
    Ok((lights, effect_storages, physics, liquids, force_fields))
}

/// The flat tail of a level: collision and camera meshes, trigger volumes,
/// locators, and the navigation mesh.
pub struct LevelTailV {
    pub collision_meshes: Seq<TriangleMeshV>,
    pub camera_mesh: Option<TriangleMeshV>,
    pub trigger_areas: Seq<TriggerAreaV>,
    pub locators: Seq<LocatorV>,
    pub nav_mesh: NavMeshV,
}

pub open spec fn sp_level_tail(d: Seq<u8>, q: int, names: Seq<Seq<char>>) -> Option<
    (LevelTailV, int),
> {
    match sp_collision_meshes(d, q, names, 10) {
        None => None,
        Some((collision_meshes, q1)) => match sp_bool(d, q1) {
            None => None,
            Some((has_cam, q2)) => {
                let cam = if has_cam {
                    match sp_triangle_mesh(d, q2, names) {
                        None => None,
                        Some((m, q3)) => Some((Some(m), q3)),
                    }
                } else {
                    Some((None, q2))
                };
                match cam {
                    None => None,
                    Some((camera_mesh, q3)) => match sp_i32le(d, q3) {
                        None => None,
                        Some((nta, q4)) => match sp_trigger_areas_n(d, q4, sp_count(nta)) {
                            None => None,
                            Some((trigger_areas, q5)) => match sp_i32le(d, q5) {
                                None => None,
                                Some((nlo, q6)) => match sp_locators_n(d, q6, sp_count(nlo)) {
                                    None => None,
                                    Some((locators, q7)) => match sp_nav_mesh(d, q7) {
                                        None => None,
                                        Some((nav_mesh, q8)) => Some(
                                            (
                                                LevelTailV {
                                                    collision_meshes,
                                                    camera_mesh,
                                                    trigger_areas,
                                                    locators,
                                                    nav_mesh,
                                                },
                                                q8,
                                            ),
                                        ),
                                    },
                                },
                            },
                        },
                    },
                }
            },
        },
    }
}

pub open spec fn sp_level_model_rest(
    d: Seq<u8>,
    q: int,
    names: Seq<Seq<char>>,
    acc: LevelModelV,
) -> Option<(LevelModelV, int)> {
    match sp_level_tail(d, q, names) {
        None => None,
        Some((t, q1)) => Some(
            (
                LevelModelV {
                    collision_meshes: t.collision_meshes,
                    camera_mesh: t.camera_mesh,
                    trigger_areas: t.trigger_areas,
                    locators: t.locators,
                    nav_mesh: t.nav_mesh,
                    ..acc
                },
                q1,
            ),
        ),
    }
}

/// Reads the tail sections of a level.
#[verifier::rlimit(100)]
#[verifier::spinoff_prover]
fn read_level_tail(rd: &mut Reader, type_readers: &[TypeReader]) -> (r: Result<
    (Vec<TriangleMesh>, Option<TriangleMesh>, Vec<TriggerArea>, Vec<Locator>, NavMesh),
    DecodeError,
>)
    requires
        old(rd).wf(),
    ensures
        final(rd).wf(),
        final(rd).data@ == old(rd).data@,
        match r {
            Ok(v) => sp_level_tail(old(rd).data@, old(rd).pos as int, sp_names(type_readers@))
                == Some(
                (
                    LevelTailV {
                        collision_meshes: v.0@.map_values(|x: TriangleMesh| x@),
                        camera_mesh: match v.1 {
                            Some(m) => Some(m@),
                            None => None,
                        },
                        trigger_areas: v.2@.map_values(|x: TriggerArea| x@),
                        locators: v.3@.map_values(|x: Locator| x@),
                        nav_mesh: v.4@,
                    },
                    final(rd).pos as int,
                ),
            ) && final(rd).pos >= old(rd).pos,
            Err(_) => sp_level_tail(
                old(rd).data@,
                old(rd).pos as int,
                sp_names(type_readers@),
            ) is None,
        },
{
    let collision_meshes = match read_collision_meshes(rd, type_readers) {
        Ok(v) => v,
        Err(e) => {
            return Err(e);
        },
    };
    let has_cam = match rd.read_bool() {
        Ok(v) => v,
        Err(e) => {
            return Err(e);
        },
    };
    let camera_mesh = if has_cam {
        match TriangleMesh::read(rd, type_readers) {
            Ok(v) => Some(v),
            Err(e) => {
                return Err(e);
            },
        }
    } else {
        None
    };
    let nta = match rd.read_i32le() {
        Ok(v) => v,
        Err(e) => {
            return Err(e);
        },
    };
    let trigger_areas = match read_trigger_areas(rd, if nta < 0 { 0 } else { nta as u32 }) {
        Ok(v) => v,
        Err(e) => {
            return Err(e);
        },
    };
    let nlo = match rd.read_i32le() {
        Ok(v) => v,
        Err(e) => {
            return Err(e);
        },
    };
    let locators = match read_locators(rd, if nlo < 0 { 0 } else { nlo as u32 }) {
        Ok(v) => v,
        Err(e) => {
            return Err(e);
        },
    };
    let nav_mesh = match NavMesh::read(rd) {
        Ok(v) => v,
        Err(e) => {
            return Err(e);
        },
    };
    Ok((collision_meshes, camera_mesh, trigger_areas, locators, nav_mesh))
}

impl LevelModel {
    #[verifier::rlimit(100)]
    #[verifier::spinoff_prover]
    pub fn read(rd: &mut Reader, type_readers: &[TypeReader]) -> (r: Result<
        LevelModel,
        DecodeError,
    >)
        requires
            old(rd).wf(),
        ensures
            final(rd).wf(),
            final(rd).data@ == old(rd).data@,
            match r {
                Ok(v) => sp_level_model(old(rd).data@, old(rd).pos as int, sp_names(type_readers@))
                    == Some((v@, final(rd).pos as int)) && final(rd).pos > old(rd).pos,
                Err(_) => sp_level_model(
                    old(rd).data@,
                    old(rd).pos as int,
                    sp_names(type_readers@),
                ) is None,
            },
        decreases old(rd).data@.len() - old(rd).pos, 1int,
    {
        let model = match XnbAsset::read(rd, type_readers) {
            Ok(XnbAsset::BiTreeModel(v)) => v,
            Ok(_) => {
                return Err(DecodeError::UnexpectedAsset);
            },
            Err(e) => {
                return Err(e);
            },
        };
        let nap = match rd.read_i32le() {
            Ok(v) => v,
            Err(e) => {
                return Err(e);
            },
        };
        let animated_parts = match read_animated_parts(
            rd,
            type_readers,
            if nap < 0 {
                0
            } else {
                nap as u32
            },
        ) {
            Ok(v) => v,
            Err(e) => {
                return Err(e);
            },
        };
        let mid = match read_level_mid(rd, type_readers) {
            Ok(v) => v,
            Err(e) => {
                return Err(e);
            },
        };
        let (lights, effect_storages, physics_entity_storages, liquids, force_fields) = mid;
        let tail = match read_level_tail(rd, type_readers) {
            Ok(v) => v,
            Err(e) => {
                return Err(e);
            },
        };
        let (collision_meshes, camera_mesh, trigger_areas, locators, nav_mesh) = tail;
        Ok(
            LevelModel {
                model,
                animated_parts,
                lights,
                effect_storages,
                physics_entity_storages,
                liquids,
                force_fields,
                collision_meshes,
                camera_mesh,
                trigger_areas,
                locators,
                nav_mesh,
            },
        )
    }
}

} // verus!

use vstd::prelude::*;

use crate::err::DecodeError;
use crate::reader::{sp_bool, sp_f32bits, sp_string, Reader};
use crate::xnb::asset::color::{sp_color, Color};
use crate::xnb::asset::vertex_decl::{sp_stride, ElementUsage, VertexDeclaration, VertexElement};

verus! {

/// One material block of the deferred-shading effect.
#[derive(Debug, Clone, PartialEq, Eq)]
pub struct RenderDeferredEffectMaterial {
    pub diffuse_texture_alpha_disabled: bool,
    pub alpha_mask_enabled: bool,
    pub diffuse_color: Color,
    pub spec_amount: u32,
    pub spec_power: u32,
    pub emissive_amount: u32,
    pub normal_power: u32,
    pub reflectiveness: u32,
    pub diffuse_texture: String,
    pub material_texture: String,
    pub normal_texture: String,
}

pub struct RenderDeferredEffectMaterialV {
    pub diffuse_texture_alpha_disabled: bool,
    pub alpha_mask_enabled: bool,
    pub diffuse_color: Color,
    pub spec_amount: u32,
    pub spec_power: u32,
    pub emissive_amount: u32,
    pub normal_power: u32,
    pub reflectiveness: u32,
    pub diffuse_texture: Seq<char>,
    pub material_texture: Seq<char>,
    pub normal_texture: Seq<char>,
}

impl View for RenderDeferredEffectMaterial {
    type V = RenderDeferredEffectMaterialV;

    open spec fn view(&self) -> RenderDeferredEffectMaterialV {
        RenderDeferredEffectMaterialV {
            diffuse_texture_alpha_disabled: self.diffuse_texture_alpha_disabled,
            alpha_mask_enabled: self.alpha_mask_enabled,
            diffuse_color: self.diffuse_color,
            spec_amount: self.spec_amount,
            spec_power: self.spec_power,
            emissive_amount: self.emissive_amount,
            normal_power: self.normal_power,
            reflectiveness: self.reflectiveness,
            diffuse_texture: self.diffuse_texture@,
            material_texture: self.material_texture@,
            normal_texture: self.normal_texture@,
        }
    }
}

pub open spec fn sp_rde_material(d: Seq<u8>, p: int) -> Option<(RenderDeferredEffectMaterialV, int)> {
    match sp_bool(d, p) {
        None => None,
        Some((dtad, p1)) => match sp_bool(d, p1) {
            None => None,
            Some((ame, p2)) => match sp_color(d, p2) {
                None => None,
                Some((diffuse_color, p3)) => match sp_f32bits(d, p3) {
                    None => None,
                    Some((spec_amount, p4)) => match sp_f32bits(d, p4) {
                        None => None,
                        Some((spec_power, p5)) => match sp_f32bits(d, p5) {
                            None => None,
                            Some((emissive_amount, p6)) => match sp_f32bits(d, p6) {
                                None => None,
                                Some((normal_power, p7)) => match sp_f32bits(d, p7) {
                                    None => None,
                                    Some((reflectiveness, p8)) => match sp_string(d, p8) {
                                        None => None,
                                        Some((diffuse_texture, p9)) => match sp_string(d, p9) {
                                            None => None,
                                            Some((material_texture, p10)) => match sp_string(
                                                d,
                                                p10,
                                            ) {
                                                None => None,
                                                Some((normal_texture, p11)) => Some(
                                                    (
                                                        RenderDeferredEffectMaterialV {
                                                            diffuse_texture_alpha_disabled: dtad,
                                                            alpha_mask_enabled: ame,
                                                            diffuse_color,
                                                            spec_amount,
                                                            spec_power,
                                                            emissive_amount,
                                                            normal_power,
                                                            reflectiveness,
                                                            diffuse_texture,
                                                            material_texture,
                                                            normal_texture,
                                                        },
                                                        p11,
                                                    ),
                                                ),
                                            },
                                        },
                                    },
                                },
                            },
                        },
                    },
                },
            },
        },
    }
}

impl RenderDeferredEffectMaterial {
    pub fn read(rd: &mut Reader) -> (r: Result<RenderDeferredEffectMaterial, DecodeError>)
        requires
            old(rd).wf(),
        ensures
            final(rd).wf(),
            final(rd).data@ == old(rd).data@,
            match r {
                Ok(v) => sp_rde_material(old(rd).data@, old(rd).pos as int) == Some(
                    (v@, final(rd).pos as int),
                ) && final(rd).pos > old(rd).pos,
                Err(_) => sp_rde_material(old(rd).data@, old(rd).pos as int) is None,
            },
    {
        let diffuse_texture_alpha_disabled = match rd.read_bool() {
            Ok(v) => v,
            Err(e) => {
                return Err(e);
            },
        };
        let alpha_mask_enabled = match rd.read_bool() {
            Ok(v) => v,
            Err(e) => {
                return Err(e);
            },
        };
        let diffuse_color = match Color::read(rd) {
            Ok(v) => v,
            Err(e) => {
                return Err(e);
            },
        };
        let spec_amount = match rd.read_f32bits() {
            Ok(v) => v,
            Err(e) => {
                return Err(e);
            },
        };
        let spec_power = match rd.read_f32bits() {
            Ok(v) => v,
            Err(e) => {
                return Err(e);
            },
        };
        let emissive_amount = match rd.read_f32bits() {
            Ok(v) => v,
            Err(e) => {
                return Err(e);
            },
        };
        let normal_power = match rd.read_f32bits() {
            Ok(v) => v,
            Err(e) => {
                return Err(e);
            },
        };
        let reflectiveness = match rd.read_f32bits() {
            Ok(v) => v,
            Err(e) => {
                return Err(e);
            },
        };
        let diffuse_texture = match rd.read_string() {
            Ok(v) => v,
            Err(e) => {
                return Err(e);
            },
        };
        let material_texture = match rd.read_string() {
            Ok(v) => v,
            Err(e) => {
                return Err(e);
            },
        };
        let normal_texture = match rd.read_string() {
            Ok(v) => v,
            Err(e) => {
                return Err(e);
            },
        };
        Ok(
            RenderDeferredEffectMaterial {
                diffuse_texture_alpha_disabled,
                alpha_mask_enabled,
                diffuse_color,
                spec_amount,
                spec_power,
                emissive_amount,
                normal_power,
                reflectiveness,
                diffuse_texture,
                material_texture,
                normal_texture,
            },
        )
    }
}

/// Deferred-shading material effect: shared scalars, a first material block,
/// and an optional second block gated by a leading flag.
#[derive(Debug, Clone, PartialEq, Eq)]
pub struct RenderDeferredEffect {
    pub alpha: u32,
    pub sharpness: u32,
    pub vertex_color_enabled: bool,
    pub use_material_texture_for_reflectiveness: bool,
    pub reflection_map: String,
    pub material_0: RenderDeferredEffectMaterial,
    pub material_1: Option<RenderDeferredEffectMaterial>,
}

pub struct RenderDeferredEffectV {
    pub alpha: u32,
    pub sharpness: u32,
    pub vertex_color_enabled: bool,
    pub use_material_texture_for_reflectiveness: bool,
    pub reflection_map: Seq<char>,
    pub material_0: RenderDeferredEffectMaterialV,
    pub material_1: Option<RenderDeferredEffectMaterialV>,
}

impl View for RenderDeferredEffect {
    type V = RenderDeferredEffectV;

    open spec fn view(&self) -> RenderDeferredEffectV {
        RenderDeferredEffectV {
            alpha: self.alpha,
            sharpness: self.sharpness,
            vertex_color_enabled: self.vertex_color_enabled,
            use_material_texture_for_reflectiveness: self.use_material_texture_for_reflectiveness,
            reflection_map: self.reflection_map@,
            material_0: self.material_0@,
            material_1: match self.material_1 {
                Some(m) => Some(m@),
                None => None,
            },
        }
    }
}

pub open spec fn sp_rde(d: Seq<u8>, p: int) -> Option<(RenderDeferredEffectV, int)> {
    match sp_f32bits(d, p) {
        None => None,
        Some((alpha, p1)) => match sp_f32bits(d, p1) {
            None => None,
            Some((sharpness, p2)) => match sp_bool(d, p2) {
                None => None,
                Some((vce, p3)) => match sp_bool(d, p3) {
                    None => None,
                    Some((umtfr, p4)) => match sp_string(d, p4) {
                        None => None,
                        Some((reflection_map, p5)) => match sp_rde_material(d, p5) {
                            None => None,
                            Some((material_0, p6)) => match sp_bool(d, p6) {
                                None => None,
                                Some((has_1, p7)) => {
                                    if has_1 {
                                        match sp_rde_material(d, p7) {
                                            None => None,
                                            Some((material_1, p8)) => Some(
                                                (
                                                    RenderDeferredEffectV {
                                                        alpha,
                                                        sharpness,
                                                        vertex_color_enabled: vce,
                                                        use_material_texture_for_reflectiveness:
                                                            umtfr,
                                                        reflection_map,
                                                        material_0,
                                                        material_1: Some(material_1),
                                                    },
                                                    p8,
                                                ),
                                            ),
                                        }
                                    } else {
                                        Some(
                                            (
                                                RenderDeferredEffectV {
                                                    alpha,
                                                    sharpness,
                                                    vertex_color_enabled: vce,
                                                    use_material_texture_for_reflectiveness: umtfr,
                                                    reflection_map,
                                                    material_0,
                                                    material_1: None,
                                                },
                                                p7,
                                            ),
                                        )
                                    }
                                },
                            },
                        },
                    },
                },
            },
        },
    }
}

impl RenderDeferredEffect {
    pub fn read(rd: &mut Reader) -> (r: Result<RenderDeferredEffect, DecodeError>)
        requires
            old(rd).wf(),
        ensures
            final(rd).wf(),
            final(rd).data@ == old(rd).data@,
            match r {
                Ok(v) => sp_rde(old(rd).data@, old(rd).pos as int) == Some(
                    (v@, final(rd).pos as int),
                ) && final(rd).pos > old(rd).pos,
                Err(_) => sp_rde(old(rd).data@, old(rd).pos as int) is None,
            },
    {
        let alpha = match rd.read_f32bits() {
            Ok(v) => v,
            Err(e) => {
                return Err(e);
            },
        };
        let sharpness = match rd.read_f32bits() {
            Ok(v) => v,
            Err(e) => {
                return Err(e);
            },
        };
        let vertex_color_enabled = match rd.read_bool() {
            Ok(v) => v,
            Err(e) => {
                return Err(e);
            },
        };
        let use_material_texture_for_reflectiveness = match rd.read_bool() {
            Ok(v) => v,
            Err(e) => {
                return Err(e);
            },
        };
        let reflection_map = match rd.read_string() {
            Ok(v) => v,
            Err(e) => {
                return Err(e);
            },
        };
        let material_0 = match RenderDeferredEffectMaterial::read(rd) {
            Ok(v) => v,
            Err(e) => {
                return Err(e);
            },
        };
        let has_material_1 = match rd.read_bool() {
            Ok(v) => v,
            Err(e) => {
                return Err(e);
            },
        };
        let material_1 = if has_material_1 {
            match RenderDeferredEffectMaterial::read(rd) {
                Ok(v) => Some(v),
                Err(e) => {
                    return Err(e);
                },
            }
        } else {
            None
        };
        Ok(
            RenderDeferredEffect {
                alpha,
                sharpness,
                vertex_color_enabled,
                use_material_texture_for_reflectiveness,
                reflection_map,
                material_0,
                material_1,
            },
        )
    }
}

/// Where each vertex attribute the deferred shader consumes starts inside a
/// vertex, with -1 for an absent optional attribute.
#[derive(Debug, Clone, Copy, PartialEq, Eq, Structural)]
pub struct RenderDeferredEffectVertexLayout {
    pub stride: u32,
    pub position: i32,
    pub normal: i32,
    pub tangent_0: i32,
    pub tangent_1: i32,
    pub color: i32,
    pub tex_coords_0: i32,
    pub tex_coords_1: i32,
}

/// The first-occurrence scan over the elements: each supported usage takes
/// the first (for tangents and texture coordinates, also the second) offset
/// seen; an element of any other usage fails the scan.
pub open spec fn sp_layout_scan(
    es: Seq<VertexElement>,
    acc: RenderDeferredEffectVertexLayout,
) -> Option<RenderDeferredEffectVertexLayout>
    decreases es.len(),
{
    if es.len() == 0 {
        Some(acc)
    } else {
        let el = es[0];
        let off = el.offset as i32;
        let acc1 = if el.usage == ElementUsage::Position {
            if acc.position < 0 {
                Some(RenderDeferredEffectVertexLayout { position: off, ..acc })
            } else {
                Some(acc)
            }
        } else if el.usage == ElementUsage::Normal {
            if acc.normal < 0 {
                Some(RenderDeferredEffectVertexLayout { normal: off, ..acc })
            } else {
                Some(acc)
            }
        } else if el.usage == ElementUsage::Tangent {
            if acc.tangent_0 < 0 {
                Some(RenderDeferredEffectVertexLayout { tangent_0: off, ..acc })
            } else if acc.tangent_1 < 0 {
                Some(RenderDeferredEffectVertexLayout { tangent_1: off, ..acc })
            } else {
                Some(acc)
            }
        } else if el.usage == ElementUsage::Color {
            if acc.color < 0 {
                Some(RenderDeferredEffectVertexLayout { color: off, ..acc })
            } else {
                Some(acc)
            }
        } else if el.usage == ElementUsage::TextureCoordinate {
            if acc.tex_coords_0 < 0 {
                Some(RenderDeferredEffectVertexLayout { tex_coords_0: off, ..acc })
            } else if acc.tex_coords_1 < 0 {
                Some(RenderDeferredEffectVertexLayout { tex_coords_1: off, ..acc })
            } else {
                Some(acc)
            }
        } else {
            None
        };
        match acc1 {
            None => None,
            Some(a) => sp_layout_scan(es.drop_first(), a),
        }
    }
}

pub open spec fn sp_layout_init(stride: u32) -> RenderDeferredEffectVertexLayout {
    RenderDeferredEffectVertexLayout {
        stride,
        position: -1i32,
        normal: -1i32,
        tangent_0: -1i32,
        tangent_1: -1i32,
        color: -1i32,
        tex_coords_0: -1i32,
        tex_coords_1: -1i32,
    }
}

/// The layout a declaration denotes: the scan's result, required to have a
/// position, a normal, and a first texture coordinate.
pub open spec fn sp_layout_of(es: Seq<VertexElement>) -> Option<RenderDeferredEffectVertexLayout> {
    match sp_layout_scan(es, sp_layout_init(sp_stride(es) as u32)) {
        None => None,
        Some(a) => {
            if a.position >= 0 && a.normal >= 0 && a.tex_coords_0 >= 0 {
                Some(a)
            } else {
                None
            }
        },
    }
}

impl RenderDeferredEffectVertexLayout {
    /// Derive the shader's vertex layout from a declaration. Fails when an
    /// element has a usage the shader does not consume, or when the
    /// position, normal, or first texture coordinate is missing. Every
    /// element must be of a format the library sizes, as in the supported
    /// content.
    pub fn new(decl: &VertexDeclaration) -> (r: Result<RenderDeferredEffectVertexLayout,
        DecodeError,
    >)
        requires
            forall|i: int|
                0 <= i < decl.elements@.len() ==> (#[trigger] decl.elements@[i]).format.sp_sized(),
            sp_stride(decl.elements@) <= u32::MAX,
        ensures
            match r {
                Ok(v) => sp_layout_of(decl.elements@) == Some(v),
                Err(_) => sp_layout_of(decl.elements@) is None,
            },
    {
        let stride_us: usize = decl.stride();
        let mut acc = RenderDeferredEffectVertexLayout {
            stride: stride_us as u32,
            position: -1,
            normal: -1,
            tangent_0: -1,
            tangent_1: -1,
            color: -1,
            tex_coords_0: -1,
            tex_coords_1: -1,
        };
        let n: usize = decl.elements.len();
        let mut i: usize = 0;
        proof {
            assert(decl.elements@.skip(0) =~= decl.elements@);
        }
        while i < n
            invariant
                i <= n,
                n == decl.elements@.len(),
                acc.position >= -1,
                acc.normal >= -1,
                acc.tangent_0 >= -1,
                acc.tangent_1 >= -1,
                acc.color >= -1,
                acc.tex_coords_0 >= -1,
                acc.tex_coords_1 >= -1,
                sp_layout_scan(decl.elements@, sp_layout_init(sp_stride(decl.elements@) as u32))
                    == sp_layout_scan(decl.elements@.skip(i as int), acc),
            decreases n - i,
        {
            let el = &decl.elements[i];
            let off = el.offset as i32;
            proof {
                assert(decl.elements@.skip(i as int)[0] == decl.elements@[i as int]);
                assert(decl.elements@.skip(i as int).drop_first() =~= decl.elements@.skip(i + 1));
            }
            match el.usage {
                ElementUsage::Position => {
                    if acc.position < 0 {
                        acc.position = off;
                    }
                },
                ElementUsage::Normal => {
                    if acc.normal < 0 {
                        acc.normal = off;
                    }
                },
                ElementUsage::Tangent => {
                    if acc.tangent_0 < 0 {
                        acc.tangent_0 = off;
                    } else if acc.tangent_1 < 0 {
                        acc.tangent_1 = off;
                    }
                },
                ElementUsage::Color => {
                    if acc.color < 0 {
                        acc.color = off;
                    }
                },
                ElementUsage::TextureCoordinate => {
                    if acc.tex_coords_0 < 0 {
                        acc.tex_coords_0 = off;
                    } else if acc.tex_coords_1 < 0 {
                        acc.tex_coords_1 = off;
                    }
                },
                _ => {
                    return Err(DecodeError::UnsupportedVertexUsage);
                },
            }
            i = i + 1;
        }
        proof {
            assert(decl.elements@.skip(n as int) =~= Seq::<VertexElement>::empty());
        }
        if acc.position == -1 {
            return Err(DecodeError::MissingVertexElement);
        }
        if acc.normal == -1 {
            return Err(DecodeError::MissingVertexElement);
        }
        if acc.tex_coords_0 == -1 {
            return Err(DecodeError::MissingVertexElement);
        }
        Ok(acc)
    }
}

/// The packed uniform handed to the deferred shader: the vertex layout and
/// the material switches, with colors as raw IEEE bit patterns and flags as
/// 0-or-1 words.
#[derive(Debug, Clone, Copy, PartialEq, Eq, Structural)]
pub struct RenderDeferredEffectUniform {
    pub vertex_layout_stride: u32,
    pub vertex_layout_position: i32,
    pub vertex_layout_normal: i32,
    pub vertex_layout_tangent_0: i32,
    pub vertex_layout_tangent_1: i32,
    pub vertex_layout_color: i32,
    pub vertex_layout_tex_coords_0: i32,
    pub vertex_layout_tex_coords_1: i32,
    pub vertex_color_enabled: i32,
    pub m0_diffuse_color_r: u32,
    pub m0_diffuse_color_g: u32,
    pub m0_diffuse_color_b: u32,
    pub m0_diffuse_texture_enabled: i32,
    pub m0_diffuse_texture_alpha_enabled: i32,
    pub m0_alpha_mask_enabled: i32,
    pub m1_enabled: i32,
    pub m1_diffuse_color_r: u32,
    pub m1_diffuse_color_g: u32,
    pub m1_diffuse_color_b: u32,
    pub m1_diffuse_texture_enabled: i32,
    pub m1_diffuse_texture_alpha_enabled: i32,
    pub m1_alpha_mask_enabled: i32,
}

/// The uniform an effect and a layout denote.
pub open spec fn sp_uniform_of(
    e: RenderDeferredEffectV,
    l: RenderDeferredEffectVertexLayout,
) -> RenderDeferredEffectUniform {
    RenderDeferredEffectUniform {
        vertex_layout_stride: l.stride,
        vertex_layout_position: l.position,
        vertex_layout_normal: l.normal,
        vertex_layout_tangent_0: l.tangent_0,
        vertex_layout_tangent_1: l.tangent_1,
        vertex_layout_color: l.color,
        vertex_layout_tex_coords_0: l.tex_coords_0,
        vertex_layout_tex_coords_1: l.tex_coords_1,
        vertex_color_enabled: if e.vertex_color_enabled {
            1
        } else {
            0
        },
        m0_diffuse_color_r: e.material_0.diffuse_color.r,
        m0_diffuse_color_g: e.material_0.diffuse_color.g,
        m0_diffuse_color_b: e.material_0.diffuse_color.b,
        m0_diffuse_texture_enabled: 1,
        m0_diffuse_texture_alpha_enabled: if e.material_0.diffuse_texture_alpha_disabled {
            0
        } else {
            1
        },
        m0_alpha_mask_enabled: if e.material_0.alpha_mask_enabled {
            1
        } else {
            0
        },
        m1_enabled: if e.material_1 is Some {
            1
        } else {
            0
        },
        m1_diffuse_color_r: match e.material_1 {
            Some(m) => m.diffuse_color.r,
            None => 0,
        },
        m1_diffuse_color_g: match e.material_1 {
            Some(m) => m.diffuse_color.g,
            None => 0,
        },
        m1_diffuse_color_b: match e.material_1 {
            Some(m) => m.diffuse_color.b,
            None => 0,
        },
        m1_diffuse_texture_enabled: 1,
        m1_diffuse_texture_alpha_enabled: match e.material_1 {
            Some(m) => if m.diffuse_texture_alpha_disabled {
                0
            } else {
                1
            },
            None => 0,
        },
        m1_alpha_mask_enabled: match e.material_1 {
            Some(m) => if m.alpha_mask_enabled {
                1
            } else {
                0
            },
            None => 0,
        },
    }
}

impl RenderDeferredEffectUniform {
    /// Build the shader uniform for an effect rendered with the given
    /// vertex declaration.
    pub fn new(effect: &RenderDeferredEffect, decl: &VertexDeclaration) -> (r: Result<
        RenderDeferredEffectUniform,
        DecodeError,
    >)
        requires
            forall|i: int|
                0 <= i < decl.elements@.len() ==> (#[trigger] decl.elements@[i]).format.sp_sized(),
            sp_stride(decl.elements@) <= u32::MAX,
        ensures
            match r {
                Ok(u) => sp_layout_of(decl.elements@) matches Some(l) && u == sp_uniform_of(
                    effect@,
                    l,
                ),
                Err(_) => sp_layout_of(decl.elements@) is None,
            },
    {
        let layout = match RenderDeferredEffectVertexLayout::new(decl) {
            Ok(v) => v,
            Err(e) => {
                return Err(e);
            },
        };
        let vertex_color_enabled: i32 = if effect.vertex_color_enabled {
            1
        } else {
            0
        };
        let m0_diffuse_texture_alpha_enabled: i32 = if effect
            .material_0
            .diffuse_texture_alpha_disabled {
            0
        } else {
            1
        };
        let m0_alpha_mask_enabled: i32 = if effect.material_0.alpha_mask_enabled {
            1
        } else {
            0
        };
        let mut m1_enabled: i32 = 0;
        let mut m1_diffuse_color_r: u32 = 0;
        let mut m1_diffuse_color_g: u32 = 0;
        let mut m1_diffuse_color_b: u32 = 0;
        let mut m1_diffuse_texture_alpha_enabled: i32 = 0;
        let mut m1_alpha_mask_enabled: i32 = 0;
        match &effect.material_1 {
            Some(material_1) => {
                m1_enabled = 1;
                m1_diffuse_color_r = material_1.diffuse_color.r;
                m1_diffuse_color_g = material_1.diffuse_color.g;
                m1_diffuse_color_b = material_1.diffuse_color.b;
                m1_diffuse_texture_alpha_enabled = if material_1.diffuse_texture_alpha_disabled {
                    0
                } else {
                    1
                };
                m1_alpha_mask_enabled = if material_1.alpha_mask_enabled {
                    1
                } else {
                    0
                };
            },
            None => {},
        }
        Ok(
            RenderDeferredEffectUniform {
                vertex_layout_stride: layout.stride,
                vertex_layout_position: layout.position,
                vertex_layout_normal: layout.normal,
                vertex_layout_tangent_0: layout.tangent_0,
                vertex_layout_tangent_1: layout.tangent_1,
                vertex_layout_color: layout.color,
                vertex_layout_tex_coords_0: layout.tex_coords_0,
                vertex_layout_tex_coords_1: layout.tex_coords_1,
                vertex_color_enabled,
                m0_diffuse_color_r: effect.material_0.diffuse_color.r,
                m0_diffuse_color_g: effect.material_0.diffuse_color.g,
                m0_diffuse_color_b: effect.material_0.diffuse_color.b,
                m0_diffuse_texture_enabled: 1,
                m0_diffuse_texture_alpha_enabled,
                m0_alpha_mask_enabled,
                m1_enabled,
                m1_diffuse_color_r,
                m1_diffuse_color_g,
                m1_diffuse_color_b,
                m1_diffuse_texture_enabled: 1,
                m1_diffuse_texture_alpha_enabled,
                m1_alpha_mask_enabled,
            },
        )
    }
}

} // verus!

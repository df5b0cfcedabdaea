use vstd::prelude::*;

use crate::err::DecodeError;
use crate::strutil::{parse_u8_str, sp_eq_ignore_case, sp_parse_u8, str_eq, str_eq_ignore_case};
use crate::vfx::{attr_ci, attr_exact, property_from_node, sp_attr_ci, sp_attr_exact,
    sp_raw_prop_rel, sp_raw_prop_valid, RawProperty, RawPropertyV};
use crate::xml::{lemma_view_xml_nodes_seq, sp_view_xml_nodes_seq, XmlNode, XmlNodeV};

verus! {

// The continuous-emitter element of the effect dialect. The element that
// counts for any field is the last child carrying the field's tag, and
// every child carrying a recognized tag must itself be well formed.

/// How particles are spread from the emitter.
#[derive(Debug, Clone, Copy, PartialEq, Eq, Structural)]
pub enum SpreadType {
    Arc,
    Cone,
}

/// The last child element carrying the tag, if any.
pub open spec fn sp_last_tag(cs: Seq<XmlNodeV>, tag: Seq<char>) -> Option<XmlNodeV>
    decreases cs.len(),
{
    if cs.len() == 0 {
        None
    } else if cs.last().tag == tag {
        Some(cs.last())
    } else {
        sp_last_tag(cs.drop_last(), tag)
    }
}

/// Every child carrying the tag is a well-formed property element.
pub open spec fn sp_all_prop_valid(cs: Seq<XmlNodeV>, tag: Seq<char>) -> bool {
    forall|i: int| 0 <= i < cs.len() && (#[trigger] cs[i]).tag == tag ==> sp_raw_prop_valid(cs[i])
}

/// What a property field of the emitter holds: the default when no child
/// carries the tag, else the last such child's property.
pub open spec fn sp_prop_field_rel(
    cs: Seq<XmlNodeV>,
    tag: Seq<char>,
    dflt: Seq<char>,
    p: RawPropertyV,
) -> bool {
    match sp_last_tag(cs, tag) {
        None => p == RawPropertyV::Constant(dflt),
        Some(c) => sp_raw_prop_rel(c, p),
    }
}

/// Read one optional property field.
fn prop_field(children: &Vec<XmlNode>, tag: &str, dflt: &str) -> (r: Result<
    RawProperty,
    DecodeError,
>)
    ensures
        match r {
            Ok(p) => sp_all_prop_valid(sp_view_xml_nodes_seq(children@), tag@)
                && sp_prop_field_rel(sp_view_xml_nodes_seq(children@), tag@, dflt@, p@),
            Err(_) => !sp_all_prop_valid(sp_view_xml_nodes_seq(children@), tag@),
        },
{
    let ghost cs = sp_view_xml_nodes_seq(children@);
    let n: usize = children.len();
    let mut acc: Option<RawProperty> = None;
    let mut i: usize = 0;
    proof {
        lemma_view_xml_nodes_seq(children@);
        assert(cs.take(0) =~= Seq::<XmlNodeV>::empty());
    }
    while i < n
        invariant
            i <= n,
            n == children@.len(),
            cs == sp_view_xml_nodes_seq(children@),
            cs == children@.map_values(|c: XmlNode| c@),
            sp_all_prop_valid(cs.take(i as int), tag@),
            match sp_last_tag(cs.take(i as int), tag@) {
                None => acc is None,
                Some(c) => acc matches Some(p) && sp_raw_prop_rel(c, p@),
            },
        decreases n - i,
    {
        proof {
            assert(cs.take(i + 1).last() == cs[i as int]);
            assert(cs.take(i + 1).drop_last() =~= cs.take(i as int));
        }
        if str_eq(children[i].tag.as_str(), tag) {
            let p = match property_from_node(&children[i]) {
                Ok(v) => v,
                Err(e) => {
                    proof {
                        assert(!sp_raw_prop_valid(cs[i as int]));
                    }
                    return Err(e);
                },
            };
            acc = Some(p);
        }
        proof {
            assert forall|q: int|
                0 <= q < i + 1 && (#[trigger] cs.take(i + 1)[q]).tag == tag@ implies
                sp_raw_prop_valid(cs.take(i + 1)[q]) by {
                if q < i {
                    assert(cs.take(i as int)[q] == cs.take(i + 1)[q]);
                }
            }
        }
        i = i + 1;
    }
    proof {
        assert(cs.take(n as int) =~= cs);
    }
    match acc {
        Some(p) => Ok(p),
        None => Ok(RawProperty::Constant(dflt.to_owned())),
    }
}

/// The token of an element: its case-insensitively named `value`
/// attribute.
pub open spec fn sp_token(c: XmlNodeV) -> Option<Seq<char>> {
    sp_attr_ci(c.attrs, "value"@)
}

/// A two-way switch element is well formed when its token matches either
/// word, ignoring ASCII case.
pub open spec fn sp_switch_valid(c: XmlNodeV, yes: Seq<char>, no: Seq<char>) -> bool {
    match sp_token(c) {
        Some(v) => sp_eq_ignore_case(v, yes) || sp_eq_ignore_case(v, no),
        None => false,
    }
}

/// Whether the switch token matches the first word.
pub open spec fn sp_switch_value(c: XmlNodeV, yes: Seq<char>) -> bool {
    match sp_token(c) {
        Some(v) => sp_eq_ignore_case(v, yes),
        None => false,
    }
}

pub open spec fn sp_all_switch_valid(
    cs: Seq<XmlNodeV>,
    tag: Seq<char>,
    yes: Seq<char>,
    no: Seq<char>,
) -> bool {
    forall|i: int|
        0 <= i < cs.len() && (#[trigger] cs[i]).tag == tag ==> sp_switch_valid(cs[i], yes, no)
}

/// Read one switch field: the last child with the tag decides; absent
/// means `None`.
fn switch_field(children: &Vec<XmlNode>, tag: &str, yes: &str, no: &str) -> (r: Result<
    Option<bool>,
    DecodeError,
>)
    ensures
        match r {
            Ok(o) => sp_all_switch_valid(sp_view_xml_nodes_seq(children@), tag@, yes@, no@)
                && (match sp_last_tag(sp_view_xml_nodes_seq(children@), tag@) {
                None => o is None,
                Some(c) => o == Some(sp_switch_value(c, yes@)),
            }),
            Err(_) => !sp_all_switch_valid(sp_view_xml_nodes_seq(children@), tag@, yes@, no@),
        },
{
    let ghost cs = sp_view_xml_nodes_seq(children@);
    let n: usize = children.len();
    let mut acc: Option<bool> = None;
    let mut i: usize = 0;
    proof {
        lemma_view_xml_nodes_seq(children@);
        assert(cs.take(0) =~= Seq::<XmlNodeV>::empty());
    }
    while i < n
        invariant
            i <= n,
            n == children@.len(),
            cs == sp_view_xml_nodes_seq(children@),
            cs == children@.map_values(|c: XmlNode| c@),
            sp_all_switch_valid(cs.take(i as int), tag@, yes@, no@),
            match sp_last_tag(cs.take(i as int), tag@) {
                None => acc is None,
                Some(c) => acc == Some(sp_switch_value(c, yes@)),
            },
        decreases n - i,
    {
        proof {
            assert(cs.take(i + 1).last() == cs[i as int]);
            assert(cs.take(i + 1).drop_last() =~= cs.take(i as int));
        }
        if str_eq(children[i].tag.as_str(), tag) {
            let tok = match attr_ci(&children[i], "value") {
                Some(v) => v,
                None => {
                    return Err(DecodeError::MissingXmlAttribute);
                },
            };
            let is_yes = str_eq_ignore_case(tok.as_str(), yes);
            let is_no = str_eq_ignore_case(tok.as_str(), no);
            if !(is_yes || is_no) {
                return Err(DecodeError::InvalidXmlValue);
            }
            acc = Some(is_yes);
        }
        proof {
            assert forall|q: int|
                0 <= q < i + 1 && (#[trigger] cs.take(i + 1)[q]).tag == tag@ implies
                sp_switch_valid(cs.take(i + 1)[q], yes@, no@) by {
                if q < i {
                    assert(cs.take(i as int)[q] == cs.take(i + 1)[q]);
                }
            }
        }
        i = i + 1;
    }
    proof {
        assert(cs.take(n as int) =~= cs);
    }
    Ok(acc)
}

/// Every child carrying either hue-control tag is a well-formed switch.
pub open spec fn sp_all_hsv_valid(cs: Seq<XmlNodeV>) -> bool {
    forall|i: int|
        0 <= i < cs.len() && ((#[trigger] cs[i]).tag == "HSV"@ || cs[i].tag
            == "ColorControlAlpha"@) ==> sp_switch_valid(cs[i], "true"@, "false"@)
}

/// The last child carrying either hue-control tag, if any.
pub open spec fn sp_last_hsv(cs: Seq<XmlNodeV>) -> Option<XmlNodeV>
    decreases cs.len(),
{
    if cs.len() == 0 {
        None
    } else if cs.last().tag == "HSV"@ || cs.last().tag == "ColorControlAlpha"@ {
        Some(cs.last())
    } else {
        sp_last_hsv(cs.drop_last())
    }
}

/// What the hue-control flag holds: the one tag states it directly, the
/// other states the opposite sense, as the dialect documents.
pub open spec fn sp_hsv_of(c: XmlNodeV) -> bool {
    if c.tag == "HSV"@ {
        sp_switch_value(c, "true"@)
    } else {
        !sp_switch_value(c, "true"@)
    }
}

/// Read the hue-control flag from its two competing tags; the last
/// occurrence of either wins, and it defaults to off.
fn hsv_field(children: &Vec<XmlNode>) -> (r: Result<bool, DecodeError>)
    ensures
        match r {
            Ok(b) => sp_all_hsv_valid(sp_view_xml_nodes_seq(children@)) && b == (match sp_last_hsv(
                sp_view_xml_nodes_seq(children@),
            ) {
                None => false,
                Some(c) => sp_hsv_of(c),
            }),
            Err(_) => !sp_all_hsv_valid(sp_view_xml_nodes_seq(children@)),
        },
{
    let ghost cs = sp_view_xml_nodes_seq(children@);
    let n: usize = children.len();
    let mut acc: bool = false;
    let mut i: usize = 0;
    proof {
        lemma_view_xml_nodes_seq(children@);
        assert(cs.take(0) =~= Seq::<XmlNodeV>::empty());
    }
    while i < n
        invariant
            i <= n,
            n == children@.len(),
            cs == sp_view_xml_nodes_seq(children@),
            cs == children@.map_values(|c: XmlNode| c@),
            sp_all_hsv_valid(cs.take(i as int)),
            acc == (match sp_last_hsv(cs.take(i as int)) {
                None => false,
                Some(c) => sp_hsv_of(c),
            }),
        decreases n - i,
    {
        proof {
            assert(cs.take(i + 1).last() == cs[i as int]);
            assert(cs.take(i + 1).drop_last() =~= cs.take(i as int));
        }
        let is_hsv = str_eq(children[i].tag.as_str(), "HSV");
        let is_cca = str_eq(children[i].tag.as_str(), "ColorControlAlpha");
        if is_hsv || is_cca {
            let tok = match attr_ci(&children[i], "value") {
                Some(v) => v,
                None => {
                    return Err(DecodeError::MissingXmlAttribute);
                },
            };
            let is_true = str_eq_ignore_case(tok.as_str(), "true");
            let is_false = str_eq_ignore_case(tok.as_str(), "false");
            if !(is_true || is_false) {
                return Err(DecodeError::InvalidXmlValue);
            }
            acc = if is_hsv {
                is_true
            } else {
                !is_true
            };
        }
        proof {
            assert forall|q: int|
                0 <= q < i + 1 && ((#[trigger] cs.take(i + 1)[q]).tag == "HSV"@ || cs.take(
                    i + 1,
                )[q].tag == "ColorControlAlpha"@) implies sp_switch_valid(
                cs.take(i + 1)[q],
                "true"@,
                "false"@,
            ) by {
                if q < i {
                    assert(cs.take(i as int)[q] == cs.take(i + 1)[q]);
                }
            }
        }
        i = i + 1;
    }
    proof {
        assert(cs.take(n as int) =~= cs);
    }
    Ok(acc)
}

/// Every child carrying the sprite tag holds a token that parses as an
/// unsigned 8-bit number.
pub open spec fn sp_all_sprite_valid(cs: Seq<XmlNodeV>) -> bool {
    forall|i: int|
        0 <= i < cs.len() && (#[trigger] cs[i]).tag == "Particle"@ ==> (match sp_token(cs[i]) {
            Some(v) => sp_parse_u8(v) is Some,
            None => false,
        })
}

/// The sprite index a well-formed sprite element denotes.
pub open spec fn sp_sprite_of(c: XmlNodeV) -> u8 {
    match sp_token(c) {
        Some(v) => match sp_parse_u8(v) {
            Some(b) => b,
            None => 0,
        },
        None => 0,
    }
}

/// Read the sprite index; the last `Particle` child decides.
fn sprite_field(children: &Vec<XmlNode>) -> (r: Result<Option<u8>, DecodeError>)
    ensures
        match r {
            Ok(o) => sp_all_sprite_valid(sp_view_xml_nodes_seq(children@)) && (match sp_last_tag(
                sp_view_xml_nodes_seq(children@),
                "Particle"@,
            ) {
                None => o is None,
                Some(c) => o == Some(sp_sprite_of(c)),
            }),
            Err(_) => !sp_all_sprite_valid(sp_view_xml_nodes_seq(children@)),
        },
{
    let ghost cs = sp_view_xml_nodes_seq(children@);
    let n: usize = children.len();
    let mut acc: Option<u8> = None;
    let mut i: usize = 0;
    proof {
        lemma_view_xml_nodes_seq(children@);
        assert(cs.take(0) =~= Seq::<XmlNodeV>::empty());
    }
    while i < n
        invariant
            i <= n,
            n == children@.len(),
            cs == sp_view_xml_nodes_seq(children@),
            cs == children@.map_values(|c: XmlNode| c@),
            sp_all_sprite_valid(cs.take(i as int)),
            match sp_last_tag(cs.take(i as int), "Particle"@) {
                None => acc is None,
                Some(c) => acc == Some(sp_sprite_of(c)),
            },
        decreases n - i,
    {
        proof {
            assert(cs.take(i + 1).last() == cs[i as int]);
            assert(cs.take(i + 1).drop_last() =~= cs.take(i as int));
        }
        if str_eq(children[i].tag.as_str(), "Particle") {
            let tok = match attr_ci(&children[i], "value") {
                Some(v) => v,
                None => {
                    return Err(DecodeError::MissingXmlAttribute);
                },
            };
            let b = match parse_u8_str(tok.as_str()) {
                Some(v) => v,
                None => {
                    return Err(DecodeError::InvalidXmlValue);
                },
            };
            acc = Some(b);
        }
        proof {
            assert forall|q: int|
                0 <= q < i + 1 && (#[trigger] cs.take(i + 1)[q]).tag == "Particle"@ implies (
            match sp_token(cs.take(i + 1)[q]) {
                Some(v) => sp_parse_u8(v) is Some,
                None => false,
            }) by {
                if q < i {
                    assert(cs.take(i as int)[q] == cs.take(i + 1)[q]);
                }
            }
        }
        i = i + 1;
    }
    proof {
        assert(cs.take(n as int) =~= cs);
    }
    Ok(acc)
}

/// Read one required property field: the tag must appear.
fn req_prop_field(children: &Vec<XmlNode>, tag: &str) -> (r: Result<RawProperty, DecodeError>)
    ensures
        match r {
            Ok(p) => sp_all_prop_valid(sp_view_xml_nodes_seq(children@), tag@) && (
            match sp_last_tag(sp_view_xml_nodes_seq(children@), tag@) {
                None => false,
                Some(c) => sp_raw_prop_rel(c, p@),
            }),
            Err(_) => !sp_all_prop_valid(sp_view_xml_nodes_seq(children@), tag@) || sp_last_tag(
                sp_view_xml_nodes_seq(children@),
                tag@,
            ) is None,
        },
{
    let ghost cs = sp_view_xml_nodes_seq(children@);
    let n: usize = children.len();
    let mut acc: Option<RawProperty> = None;
    let mut i: usize = 0;
    proof {
        lemma_view_xml_nodes_seq(children@);
        assert(cs.take(0) =~= Seq::<XmlNodeV>::empty());
    }
    while i < n
        invariant
            i <= n,
            n == children@.len(),
            cs == sp_view_xml_nodes_seq(children@),
            cs == children@.map_values(|c: XmlNode| c@),
            sp_all_prop_valid(cs.take(i as int), tag@),
            match sp_last_tag(cs.take(i as int), tag@) {
                None => acc is None,
                Some(c) => acc matches Some(p) && sp_raw_prop_rel(c, p@),
            },
        decreases n - i,
    {
        proof {
            assert(cs.take(i + 1).last() == cs[i as int]);
            assert(cs.take(i + 1).drop_last() =~= cs.take(i as int));
        }
        if str_eq(children[i].tag.as_str(), tag) {
            let p = match property_from_node(&children[i]) {
                Ok(v) => v,
                Err(e) => {
                    proof {
                        assert(!sp_raw_prop_valid(cs[i as int]));
                    }
                    return Err(e);
                },
            };
            acc = Some(p);
        }
        proof {
            assert forall|q: int|
                0 <= q < i + 1 && (#[trigger] cs.take(i + 1)[q]).tag == tag@ implies
                sp_raw_prop_valid(cs.take(i + 1)[q]) by {
                if q < i {
                    assert(cs.take(i as int)[q] == cs.take(i + 1)[q]);
                }
            }
        }
        i = i + 1;
    }
    proof {
        assert(cs.take(n as int) =~= cs);
    }
    match acc {
        Some(p) => Ok(p),
        None => Err(DecodeError::MissingXmlChild),
    }
}

/// A continuous particle emitter: the required identity and rate plus the
/// full optional property set, each with its documented default text.
#[derive(Debug, PartialEq, Eq)]
pub struct ContinuousEmitter {
    pub name: String,
    pub particles_per_second: RawProperty,
    pub spread_type: SpreadType,
    pub spread_arc_horizontal_angle_degrees: RawProperty,
    pub spread_arc_horizontal_angle_dist: RawProperty,
    pub spread_arc_vertical_angle_degrees_min: RawProperty,
    pub spread_arc_vertical_angle_degrees_max: RawProperty,
    pub spread_arc_vertical_angle_dist: RawProperty,
    pub spread_cone_angle_degrees: RawProperty,
    pub spread_cone_angle_dist: RawProperty,
    pub position_x: RawProperty,
    pub position_y: RawProperty,
    pub position_z: RawProperty,
    pub position_offset_x: RawProperty,
    pub position_offset_y: RawProperty,
    pub position_offset_z: RawProperty,
    pub velocity_min: RawProperty,
    pub velocity_max: RawProperty,
    pub velocity_dist: RawProperty,
    pub drag: RawProperty,
    pub gravity: RawProperty,
    pub rotation_degrees_min: RawProperty,
    pub rotation_degrees_max: RawProperty,
    pub rotation_speed_degrees_min: RawProperty,
    pub rotation_speed_degrees_max: RawProperty,
    pub rotation_ccw_chance: RawProperty,
    pub size_start_min: RawProperty,
    pub size_start_max: RawProperty,
    pub size_start_dist: RawProperty,
    pub size_end_min: RawProperty,
    pub size_end_max: RawProperty,
    pub size_end_dist: RawProperty,
    pub lifetime_min: RawProperty,
    pub lifetime_max: RawProperty,
    pub lifetime_dist: RawProperty,
    pub hue_min: RawProperty,
    pub hue_max: RawProperty,
    pub hue_dist: RawProperty,
    pub saturation_min: RawProperty,
    pub saturation_max: RawProperty,
    pub saturation_dist: RawProperty,
    pub value_min: RawProperty,
    pub value_max: RawProperty,
    pub value_dist: RawProperty,
    pub alpha_min: RawProperty,
    pub alpha_max: RawProperty,
    pub alpha_dist: RawProperty,
    pub additive_blend: bool,
    pub hsv: bool,
    pub colorize: bool,
    pub sprite: u8,
}

pub struct ContinuousEmitterV {
    pub name: Seq<char>,
    pub particles_per_second: RawPropertyV,
    pub spread_type: SpreadType,
    pub spread_arc_horizontal_angle_degrees: RawPropertyV,
    pub spread_arc_horizontal_angle_dist: RawPropertyV,
    pub spread_arc_vertical_angle_degrees_min: RawPropertyV,
    pub spread_arc_vertical_angle_degrees_max: RawPropertyV,
    pub spread_arc_vertical_angle_dist: RawPropertyV,
    pub spread_cone_angle_degrees: RawPropertyV,
    pub spread_cone_angle_dist: RawPropertyV,
    pub position_x: RawPropertyV,
    pub position_y: RawPropertyV,
    pub position_z: RawPropertyV,
    pub position_offset_x: RawPropertyV,
    pub position_offset_y: RawPropertyV,
    pub position_offset_z: RawPropertyV,
    pub velocity_min: RawPropertyV,
    pub velocity_max: RawPropertyV,
    pub velocity_dist: RawPropertyV,
    pub drag: RawPropertyV,
    pub gravity: RawPropertyV,
    pub rotation_degrees_min: RawPropertyV,
    pub rotation_degrees_max: RawPropertyV,
    pub rotation_speed_degrees_min: RawPropertyV,
    pub rotation_speed_degrees_max: RawPropertyV,
    pub rotation_ccw_chance: RawPropertyV,
    pub size_start_min: RawPropertyV,
    pub size_start_max: RawPropertyV,
    pub size_start_dist: RawPropertyV,
    pub size_end_min: RawPropertyV,
    pub size_end_max: RawPropertyV,
    pub size_end_dist: RawPropertyV,
    pub lifetime_min: RawPropertyV,
    pub lifetime_max: RawPropertyV,
    pub lifetime_dist: RawPropertyV,
    pub hue_min: RawPropertyV,
    pub hue_max: RawPropertyV,
    pub hue_dist: RawPropertyV,
    pub saturation_min: RawPropertyV,
    pub saturation_max: RawPropertyV,
    pub saturation_dist: RawPropertyV,
    pub value_min: RawPropertyV,
    pub value_max: RawPropertyV,
    pub value_dist: RawPropertyV,
    pub alpha_min: RawPropertyV,
    pub alpha_max: RawPropertyV,
    pub alpha_dist: RawPropertyV,
    pub additive_blend: bool,
    pub hsv: bool,
    pub colorize: bool,
    pub sprite: u8,
}

impl View for ContinuousEmitter {
    type V = ContinuousEmitterV;

    open spec fn view(&self) -> ContinuousEmitterV {
        ContinuousEmitterV {
            name: self.name@,
            particles_per_second: self.particles_per_second@,
            spread_type: self.spread_type,
            spread_arc_horizontal_angle_degrees: self.spread_arc_horizontal_angle_degrees@,
            spread_arc_horizontal_angle_dist: self.spread_arc_horizontal_angle_dist@,
            spread_arc_vertical_angle_degrees_min: self.spread_arc_vertical_angle_degrees_min@,
            spread_arc_vertical_angle_degrees_max: self.spread_arc_vertical_angle_degrees_max@,
            spread_arc_vertical_angle_dist: self.spread_arc_vertical_angle_dist@,
            spread_cone_angle_degrees: self.spread_cone_angle_degrees@,
            spread_cone_angle_dist: self.spread_cone_angle_dist@,
            position_x: self.position_x@,
            position_y: self.position_y@,
            position_z: self.position_z@,
            position_offset_x: self.position_offset_x@,
            position_offset_y: self.position_offset_y@,
            position_offset_z: self.position_offset_z@,
            velocity_min: self.velocity_min@,
            velocity_max: self.velocity_max@,
            velocity_dist: self.velocity_dist@,
            drag: self.drag@,
            gravity: self.gravity@,
            rotation_degrees_min: self.rotation_degrees_min@,
            rotation_degrees_max: self.rotation_degrees_max@,
            rotation_speed_degrees_min: self.rotation_speed_degrees_min@,
            rotation_speed_degrees_max: self.rotation_speed_degrees_max@,
            rotation_ccw_chance: self.rotation_ccw_chance@,
            size_start_min: self.size_start_min@,
            size_start_max: self.size_start_max@,
            size_start_dist: self.size_start_dist@,
            size_end_min: self.size_end_min@,
            size_end_max: self.size_end_max@,
            size_end_dist: self.size_end_dist@,
            lifetime_min: self.lifetime_min@,
            lifetime_max: self.lifetime_max@,
            lifetime_dist: self.lifetime_dist@,
            hue_min: self.hue_min@,
            hue_max: self.hue_max@,
            hue_dist: self.hue_dist@,
            saturation_min: self.saturation_min@,
            saturation_max: self.saturation_max@,
            saturation_dist: self.saturation_dist@,
            value_min: self.value_min@,
            value_max: self.value_max@,
            value_dist: self.value_dist@,
            alpha_min: self.alpha_min@,
            alpha_max: self.alpha_max@,
            alpha_dist: self.alpha_dist@,
            additive_blend: self.additive_blend,
            hsv: self.hsv,
            colorize: self.colorize,
            sprite: self.sprite,
        }
    }
}

/// A well-formed emitter element: the name attribute, the four required
/// children, and every recognized child well formed.
pub open spec fn sp_emitter_wf(nv: XmlNodeV) -> bool {
    let cs = nv.children;
    &&& sp_attr_exact(nv.attrs, "name"@) is Some
    &&& sp_all_switch_valid(cs, "BlendMode"@, "additive"@, "alpha"@)
    &&& sp_last_tag(cs, "BlendMode"@) is Some
    &&& sp_all_switch_valid(cs, "SpreadType"@, "arc"@, "cone"@)
    &&& sp_last_tag(cs, "SpreadType"@) is Some
    &&& sp_all_prop_valid(cs, "ParticlesPerSecond"@)
    &&& sp_last_tag(cs, "ParticlesPerSecond"@) is Some
    &&& sp_all_sprite_valid(cs)
    &&& sp_last_tag(cs, "Particle"@) is Some
    &&& sp_all_hsv_valid(cs)
    &&& sp_all_switch_valid(cs, "Colorize"@, "true"@, "false"@)
    &&& sp_all_prop_valid(cs, "SpreadArcHorizontalAngle"@)
    &&& sp_all_prop_valid(cs, "SpreadArcHorizontalDistribution"@)
    &&& sp_all_prop_valid(cs, "SpreadArcVerticalMin"@)
    &&& sp_all_prop_valid(cs, "SpreadArcVerticalMax"@)
    &&& sp_all_prop_valid(cs, "SpreadArcVerticalDistribution"@)
    &&& sp_all_prop_valid(cs, "SpreadConeAngle"@)
    &&& sp_all_prop_valid(cs, "SpreadConeDistribution"@)
    &&& sp_all_prop_valid(cs, "PositionX"@)
    &&& sp_all_prop_valid(cs, "PositionY"@)
    &&& sp_all_prop_valid(cs, "PositionZ"@)
    &&& sp_all_prop_valid(cs, "PositionXOffset"@)
    &&& sp_all_prop_valid(cs, "PositionYOffset"@)
    &&& sp_all_prop_valid(cs, "PositionZOffset"@)
    &&& sp_all_prop_valid(cs, "VelocityMin"@)
    &&& sp_all_prop_valid(cs, "VelocityMax"@)
    &&& sp_all_prop_valid(cs, "VelocityDist"@)
    &&& sp_all_prop_valid(cs, "Drag"@)
    &&& sp_all_prop_valid(cs, "Gravity"@)
    &&& sp_all_prop_valid(cs, "RotationMin"@)
    &&& sp_all_prop_valid(cs, "RotationMax"@)
    &&& sp_all_prop_valid(cs, "RotationSpeedMin"@)
    &&& sp_all_prop_valid(cs, "RotationSpeedMax"@)
    &&& sp_all_prop_valid(cs, "RotationPCCW"@)
    &&& sp_all_prop_valid(cs, "SizeStartMin"@)
    &&& sp_all_prop_valid(cs, "SizeStartMax"@)
    &&& sp_all_prop_valid(cs, "SizeStartDist"@)
    &&& sp_all_prop_valid(cs, "SizeEndMin"@)
    &&& sp_all_prop_valid(cs, "SizeEndMax"@)
    &&& sp_all_prop_valid(cs, "SizeEndDist"@)
    &&& sp_all_prop_valid(cs, "LifeTimeMin"@)
    &&& sp_all_prop_valid(cs, "LifeTimeMax"@)
    &&& sp_all_prop_valid(cs, "LifeTimeDistribution"@)
    &&& sp_all_prop_valid(cs, "HueMin"@)
    &&& sp_all_prop_valid(cs, "HueMax"@)
    &&& sp_all_prop_valid(cs, "HueDistribution"@)
    &&& sp_all_prop_valid(cs, "SatMin"@)
    &&& sp_all_prop_valid(cs, "SatMax"@)
    &&& sp_all_prop_valid(cs, "SatDistribution"@)
    &&& sp_all_prop_valid(cs, "ValueMin"@)
    &&& sp_all_prop_valid(cs, "ValueMax"@)
    &&& sp_all_prop_valid(cs, "ValueDistribution"@)
    &&& sp_all_prop_valid(cs, "AlphaMin"@)
    &&& sp_all_prop_valid(cs, "AlphaMax"@)
    &&& sp_all_prop_valid(cs, "AlphaDistribution"@)
}

/// What a well-formed emitter element denotes, field by field.
pub open spec fn sp_emitter_rel(nv: XmlNodeV, em: ContinuousEmitterV) -> bool {
    let cs = nv.children;
    &&& sp_attr_exact(nv.attrs, "name"@) == Some(em.name)
    &&& (match sp_last_tag(cs, "ParticlesPerSecond"@) {
        Some(c) => sp_raw_prop_rel(c, em.particles_per_second),
        None => false,
    })
    &&& (match sp_last_tag(cs, "BlendMode"@) {
        Some(c) => em.additive_blend == sp_switch_value(c, "additive"@),
        None => false,
    })
    &&& (match sp_last_tag(cs, "SpreadType"@) {
        Some(c) => em.spread_type == (if sp_switch_value(c, "arc"@) {
            SpreadType::Arc
        } else {
            SpreadType::Cone
        }),
        None => false,
    })
    &&& (match sp_last_tag(cs, "Particle"@) {
        Some(c) => em.sprite == sp_sprite_of(c),
        None => false,
    })
    &&& em.hsv == (match sp_last_hsv(cs) {
        None => false,
        Some(c) => sp_hsv_of(c),
    })
    &&& em.colorize == (match sp_last_tag(cs, "Colorize"@) {
        None => false,
        Some(c) => sp_switch_value(c, "true"@),
    })
    &&& sp_prop_field_rel(cs, "SpreadArcHorizontalAngle"@, "0"@, em.spread_arc_horizontal_angle_degrees)
    &&& sp_prop_field_rel(cs, "SpreadArcHorizontalDistribution"@, "1"@, em.spread_arc_horizontal_angle_dist)
    &&& sp_prop_field_rel(cs, "SpreadArcVerticalMin"@, "0"@, em.spread_arc_vertical_angle_degrees_min)
    &&& sp_prop_field_rel(cs, "SpreadArcVerticalMax"@, "0"@, em.spread_arc_vertical_angle_degrees_max)
    &&& sp_prop_field_rel(cs, "SpreadArcVerticalDistribution"@, "1"@, em.spread_arc_vertical_angle_dist)
    &&& sp_prop_field_rel(cs, "SpreadConeAngle"@, "0"@, em.spread_cone_angle_degrees)
    &&& sp_prop_field_rel(cs, "SpreadConeDistribution"@, "1"@, em.spread_cone_angle_dist)
    &&& sp_prop_field_rel(cs, "PositionX"@, "0"@, em.position_x)
    &&& sp_prop_field_rel(cs, "PositionY"@, "0"@, em.position_y)
    &&& sp_prop_field_rel(cs, "PositionZ"@, "0"@, em.position_z)
    &&& sp_prop_field_rel(cs, "PositionXOffset"@, "0"@, em.position_offset_x)
    &&& sp_prop_field_rel(cs, "PositionYOffset"@, "0"@, em.position_offset_y)
    &&& sp_prop_field_rel(cs, "PositionZOffset"@, "0"@, em.position_offset_z)
    &&& sp_prop_field_rel(cs, "VelocityMin"@, "0"@, em.velocity_min)
    &&& sp_prop_field_rel(cs, "VelocityMax"@, "0"@, em.velocity_max)
    &&& sp_prop_field_rel(cs, "VelocityDist"@, "1"@, em.velocity_dist)
    &&& sp_prop_field_rel(cs, "Drag"@, "0"@, em.drag)
    &&& sp_prop_field_rel(cs, "Gravity"@, "0"@, em.gravity)
    &&& sp_prop_field_rel(cs, "RotationMin"@, "0"@, em.rotation_degrees_min)
    &&& sp_prop_field_rel(cs, "RotationMax"@, "0"@, em.rotation_degrees_max)
    &&& sp_prop_field_rel(cs, "RotationSpeedMin"@, "0"@, em.rotation_speed_degrees_min)
    &&& sp_prop_field_rel(cs, "RotationSpeedMax"@, "0"@, em.rotation_speed_degrees_max)
    &&& sp_prop_field_rel(cs, "RotationPCCW"@, "50"@, em.rotation_ccw_chance)
    &&& sp_prop_field_rel(cs, "SizeStartMin"@, "1"@, em.size_start_min)
    &&& sp_prop_field_rel(cs, "SizeStartMax"@, "1"@, em.size_start_max)
    &&& sp_prop_field_rel(cs, "SizeStartDist"@, "1"@, em.size_start_dist)
    &&& sp_prop_field_rel(cs, "SizeEndMin"@, "1"@, em.size_end_min)
    &&& sp_prop_field_rel(cs, "SizeEndMax"@, "1"@, em.size_end_max)
    &&& sp_prop_field_rel(cs, "SizeEndDist"@, "1"@, em.size_end_dist)
    &&& sp_prop_field_rel(cs, "LifeTimeMin"@, "0"@, em.lifetime_min)
    &&& sp_prop_field_rel(cs, "LifeTimeMax"@, "0"@, em.lifetime_max)
    &&& sp_prop_field_rel(cs, "LifeTimeDistribution"@, "1"@, em.lifetime_dist)
    &&& sp_prop_field_rel(cs, "HueMin"@, "0"@, em.hue_min)
    &&& sp_prop_field_rel(cs, "HueMax"@, "0"@, em.hue_max)
    &&& sp_prop_field_rel(cs, "HueDistribution"@, "1"@, em.hue_dist)
    &&& sp_prop_field_rel(cs, "SatMin"@, "1"@, em.saturation_min)
    &&& sp_prop_field_rel(cs, "SatMax"@, "1"@, em.saturation_max)
    &&& sp_prop_field_rel(cs, "SatDistribution"@, "1"@, em.saturation_dist)
    &&& sp_prop_field_rel(cs, "ValueMin"@, "1"@, em.value_min)
    &&& sp_prop_field_rel(cs, "ValueMax"@, "1"@, em.value_max)
    &&& sp_prop_field_rel(cs, "ValueDistribution"@, "1"@, em.value_dist)
    &&& sp_prop_field_rel(cs, "AlphaMin"@, "1"@, em.alpha_min)
    &&& sp_prop_field_rel(cs, "AlphaMax"@, "1"@, em.alpha_max)
    &&& sp_prop_field_rel(cs, "AlphaDistribution"@, "1"@, em.alpha_dist)
}

impl ContinuousEmitter {
    /// Read one emitter element. The element that counts for a field is
    /// the last child with the field's tag; a missing optional field takes
    /// its documented default; a missing required field, or any malformed
    /// recognized child, is a hard error. Unrecognized child tags are
    /// tolerated and skipped, as the self-describing dialect allows.
    #[verifier::rlimit(100)]
    #[verifier::spinoff_prover]
    pub fn read(n: &XmlNode) -> (r: Result<ContinuousEmitter, DecodeError>)
        ensures
            match r {
                Ok(em) => sp_emitter_wf(n@) && sp_emitter_rel(n@, em@),
                Err(_) => !sp_emitter_wf(n@),
            },
    {
        proof {
            assert(n@.children == crate::xml::sp_view_xml_nodes_vec(n.children));
        }
        let name = match attr_exact(n, "name") {
            Some(v) => v.clone(),
            None => {
                return Err(DecodeError::MissingXmlAttribute);
            },
        };
        let blend = match switch_field(&n.children, "BlendMode", "additive", "alpha") {
            Ok(v) => v,
            Err(e) => {
                return Err(e);
            },
        };
        let additive_blend = match blend {
            Some(b) => b,
            None => {
                return Err(DecodeError::MissingXmlChild);
            },
        };
        let spread = match switch_field(&n.children, "SpreadType", "arc", "cone") {
            Ok(v) => v,
            Err(e) => {
                return Err(e);
            },
        };
        let spread_type = match spread {
            Some(true) => SpreadType::Arc,
            Some(false) => SpreadType::Cone,
            None => {
                return Err(DecodeError::MissingXmlChild);
            },
        };
        let particles_per_second = match req_prop_field(&n.children, "ParticlesPerSecond") {
            Ok(v) => v,
            Err(e) => {
                return Err(e);
            },
        };
        let sprite_opt = match sprite_field(&n.children) {
            Ok(v) => v,
            Err(e) => {
                return Err(e);
            },
        };
        let sprite = match sprite_opt {
            Some(b) => b,
            None => {
                return Err(DecodeError::MissingXmlChild);
            },
        };
        let hsv = match hsv_field(&n.children) {
            Ok(v) => v,
            Err(e) => {
                return Err(e);
            },
        };
        let colorize_opt = match switch_field(&n.children, "Colorize", "true", "false") {
            Ok(v) => v,
            Err(e) => {
                return Err(e);
            },
        };
        let colorize = match colorize_opt {
            Some(b) => b,
            None => false,
        };
        let spread_arc_horizontal_angle_degrees = match prop_field(&n.children, "SpreadArcHorizontalAngle", "0") {
            Ok(v) => v,
            Err(e) => {
                return Err(e);
            },
        };
        let spread_arc_horizontal_angle_dist = match prop_field(&n.children, "SpreadArcHorizontalDistribution", "1") {
            Ok(v) => v,
            Err(e) => {
                return Err(e);
            },
        };
        let spread_arc_vertical_angle_degrees_min = match prop_field(&n.children, "SpreadArcVerticalMin", "0") {
            Ok(v) => v,
            Err(e) => {
                return Err(e);
            },
        };
        let spread_arc_vertical_angle_degrees_max = match prop_field(&n.children, "SpreadArcVerticalMax", "0") {
            Ok(v) => v,
            Err(e) => {
                return Err(e);
            },
        };
        let spread_arc_vertical_angle_dist = match prop_field(&n.children, "SpreadArcVerticalDistribution", "1") {
            Ok(v) => v,
            Err(e) => {
                return Err(e);
            },
        };
        let spread_cone_angle_degrees = match prop_field(&n.children, "SpreadConeAngle", "0") {
            Ok(v) => v,
            Err(e) => {
                return Err(e);
            },
        };
        let spread_cone_angle_dist = match prop_field(&n.children, "SpreadConeDistribution", "1") {
            Ok(v) => v,
            Err(e) => {
                return Err(e);
            },
        };
        let position_x = match prop_field(&n.children, "PositionX", "0") {
            Ok(v) => v,
            Err(e) => {
                return Err(e);
            },
        };
        let position_y = match prop_field(&n.children, "PositionY", "0") {
            Ok(v) => v,
            Err(e) => {
                return Err(e);
            },
        };
        let position_z = match prop_field(&n.children, "PositionZ", "0") {
            Ok(v) => v,
            Err(e) => {
                return Err(e);
            },
        };
        let position_offset_x = match prop_field(&n.children, "PositionXOffset", "0") {
            Ok(v) => v,
            Err(e) => {
                return Err(e);
            },
        };
        let position_offset_y = match prop_field(&n.children, "PositionYOffset", "0") {
            Ok(v) => v,
            Err(e) => {
                return Err(e);
            },
        };
        let position_offset_z = match prop_field(&n.children, "PositionZOffset", "0") {
            Ok(v) => v,
            Err(e) => {
                return Err(e);
            },
        };
        let velocity_min = match prop_field(&n.children, "VelocityMin", "0") {
            Ok(v) => v,
            Err(e) => {
                return Err(e);
            },
        };
        let velocity_max = match prop_field(&n.children, "VelocityMax", "0") {
            Ok(v) => v,
            Err(e) => {
                return Err(e);
            },
        };
        let velocity_dist = match prop_field(&n.children, "VelocityDist", "1") {
            Ok(v) => v,
            Err(e) => {
                return Err(e);
            },
        };
        let drag = match prop_field(&n.children, "Drag", "0") {
            Ok(v) => v,
            Err(e) => {
                return Err(e);
            },
        };
        let gravity = match prop_field(&n.children, "Gravity", "0") {
            Ok(v) => v,
            Err(e) => {
                return Err(e);
            },
        };
        let rotation_degrees_min = match prop_field(&n.children, "RotationMin", "0") {
            Ok(v) => v,
            Err(e) => {
                return Err(e);
            },
        };
        let rotation_degrees_max = match prop_field(&n.children, "RotationMax", "0") {
            Ok(v) => v,
            Err(e) => {
                return Err(e);
            },
        };
        let rotation_speed_degrees_min = match prop_field(&n.children, "RotationSpeedMin", "0") {
            Ok(v) => v,
            Err(e) => {
                return Err(e);
            },
        };
        let rotation_speed_degrees_max = match prop_field(&n.children, "RotationSpeedMax", "0") {
            Ok(v) => v,
            Err(e) => {
                return Err(e);
            },
        };
        let rotation_ccw_chance = match prop_field(&n.children, "RotationPCCW", "50") {
            Ok(v) => v,
            Err(e) => {
                return Err(e);
            },
        };
        let size_start_min = match prop_field(&n.children, "SizeStartMin", "1") {
            Ok(v) => v,
            Err(e) => {
                return Err(e);
            },
        };
        let size_start_max = match prop_field(&n.children, "SizeStartMax", "1") {
            Ok(v) => v,
            Err(e) => {
                return Err(e);
            },
        };
        let size_start_dist = match prop_field(&n.children, "SizeStartDist", "1") {
            Ok(v) => v,
            Err(e) => {
                return Err(e);
            },
        };
        let size_end_min = match prop_field(&n.children, "SizeEndMin", "1") {
            Ok(v) => v,
            Err(e) => {
                return Err(e);
            },
        };
        let size_end_max = match prop_field(&n.children, "SizeEndMax", "1") {
            Ok(v) => v,
            Err(e) => {
                return Err(e);
            },
        };
        let size_end_dist = match prop_field(&n.children, "SizeEndDist", "1") {
            Ok(v) => v,
            Err(e) => {
                return Err(e);
            },
        };
        let lifetime_min = match prop_field(&n.children, "LifeTimeMin", "0") {
            Ok(v) => v,
            Err(e) => {
                return Err(e);
            },
        };
        let lifetime_max = match prop_field(&n.children, "LifeTimeMax", "0") {
            Ok(v) => v,
            Err(e) => {
                return Err(e);
            },
        };
        let lifetime_dist = match prop_field(&n.children, "LifeTimeDistribution", "1") {
            Ok(v) => v,
            Err(e) => {
                return Err(e);
            },
        };
        let hue_min = match prop_field(&n.children, "HueMin", "0") {
            Ok(v) => v,
            Err(e) => {
                return Err(e);
            },
        };
        let hue_max = match prop_field(&n.children, "HueMax", "0") {
            Ok(v) => v,
            Err(e) => {
                return Err(e);
            },
        };
        let hue_dist = match prop_field(&n.children, "HueDistribution", "1") {
            Ok(v) => v,
            Err(e) => {
                return Err(e);
            },
        };
        let saturation_min = match prop_field(&n.children, "SatMin", "1") {
            Ok(v) => v,
            Err(e) => {
                return Err(e);
            },
        };
        let saturation_max = match prop_field(&n.children, "SatMax", "1") {
            Ok(v) => v,
            Err(e) => {
                return Err(e);
            },
        };
        let saturation_dist = match prop_field(&n.children, "SatDistribution", "1") {
            Ok(v) => v,
            Err(e) => {
                return Err(e);
            },
        };
        let value_min = match prop_field(&n.children, "ValueMin", "1") {
            Ok(v) => v,
            Err(e) => {
                return Err(e);
            },
        };
        let value_max = match prop_field(&n.children, "ValueMax", "1") {
            Ok(v) => v,
            Err(e) => {
                return Err(e);
            },
        };
        let value_dist = match prop_field(&n.children, "ValueDistribution", "1") {
            Ok(v) => v,
            Err(e) => {
                return Err(e);
            },
        };
        let alpha_min = match prop_field(&n.children, "AlphaMin", "1") {
            Ok(v) => v,
            Err(e) => {
                return Err(e);
            },
        };
        let alpha_max = match prop_field(&n.children, "AlphaMax", "1") {
            Ok(v) => v,
            Err(e) => {
                return Err(e);
            },
        };
        let alpha_dist = match prop_field(&n.children, "AlphaDistribution", "1") {
            Ok(v) => v,
            Err(e) => {
                return Err(e);
            },
        };
        Ok(
            ContinuousEmitter {
                name,
                particles_per_second,
                spread_type,
                spread_arc_horizontal_angle_degrees,
                spread_arc_horizontal_angle_dist,
                spread_arc_vertical_angle_degrees_min,
                spread_arc_vertical_angle_degrees_max,
                spread_arc_vertical_angle_dist,
                spread_cone_angle_degrees,
                spread_cone_angle_dist,
                position_x,
                position_y,
                position_z,
                position_offset_x,
                position_offset_y,
                position_offset_z,
                velocity_min,
                velocity_max,
                velocity_dist,
                drag,
                gravity,
                rotation_degrees_min,
                rotation_degrees_max,
                rotation_speed_degrees_min,
                rotation_speed_degrees_max,
                rotation_ccw_chance,
                size_start_min,
                size_start_max,
                size_start_dist,
                size_end_min,
                size_end_max,
                size_end_dist,
                lifetime_min,
                lifetime_max,
                lifetime_dist,
                hue_min,
                hue_max,
                hue_dist,
                saturation_min,
                saturation_max,
                saturation_dist,
                value_min,
                value_max,
                value_dist,
                alpha_min,
                alpha_max,
                alpha_dist,
                additive_blend,
                hsv,
                colorize,
                sprite,
            },
        )
    }
}

} // verus!

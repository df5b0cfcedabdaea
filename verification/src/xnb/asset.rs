use vstd::prelude::*;

pub mod additive_effect;
pub mod animation;
pub mod bi_tree_model;
pub mod color;
pub mod index_buffer;
pub mod level_model;
pub mod math;
pub mod model;
pub mod render_deferred_effect;
pub mod render_deferred_liquid_effect;
pub mod texture_2d;
pub mod texture_3d;
pub mod vertex_buffer;
pub mod vertex_decl;

use crate::err::DecodeError;
use crate::reader::{sp_string, sp_varint, sp_varint_overlong, Reader};
use crate::strutil::{before_comma, sp_before_comma, str_eq};
use crate::xnb::asset::additive_effect::{sp_additive_effect, AdditiveEffect, AdditiveEffectV};
use crate::xnb::asset::bi_tree_model::{sp_bi_tree_model, BiTreeModel, BiTreeModelV};
use crate::xnb::asset::index_buffer::{sp_index_buffer, IndexBuffer, IndexBufferV};
use crate::xnb::asset::level_model::{sp_level_model, LevelModel, LevelModelV};
use crate::xnb::asset::model::{sp_model, Model, ModelV};
use crate::xnb::asset::render_deferred_effect::{sp_rde, RenderDeferredEffect,
    RenderDeferredEffectV};
use crate::xnb::asset::render_deferred_liquid_effect::{sp_rdle, RenderDeferredLiquidEffect,
    RenderDeferredLiquidEffectV};
use crate::xnb::asset::texture_2d::{sp_texture2d, Texture2D, Texture2DV};
use crate::xnb::asset::texture_3d::{sp_texture3d, Texture3D, Texture3DV};
use crate::xnb::asset::vertex_buffer::{sp_vertex_buffer, VertexBuffer, VertexBufferV};
use crate::xnb::asset::vertex_decl::{sp_vertex_decl, VertexDeclaration, VertexDeclarationV};
use crate::xnb::TypeReader;

verus! {

/// The polymorphic asset value: a closed union over every kind the format
/// can carry. Index zero in the stream means `Null`.
#[derive(Debug)]
pub enum XnbAsset {
    Null,
    String(String),
    Texture2D(Texture2D),
    Texture3D(Texture3D),
    Model(Model),
    VertexDeclaration(VertexDeclaration),
    VertexBuffer(VertexBuffer),
    IndexBuffer(IndexBuffer),
    BiTreeModel(BiTreeModel),
    AdditiveEffect(AdditiveEffect),
    RenderDeferredEffect(RenderDeferredEffect),
    RenderDeferredLiquidEffect(RenderDeferredLiquidEffect),
    LevelModel(LevelModel),
}

pub enum AssetV {
    Null,
    String(Seq<char>),
    Texture2D(Texture2DV),
    Texture3D(Texture3DV),
    Model(ModelV),
    VertexDeclaration(VertexDeclarationV),
    VertexBuffer(VertexBufferV),
    IndexBuffer(IndexBufferV),
    BiTreeModel(BiTreeModelV),
    AdditiveEffect(AdditiveEffectV),
    RenderDeferredEffect(RenderDeferredEffectV),
    RenderDeferredLiquidEffect(RenderDeferredLiquidEffectV),
    LevelModel(LevelModelV),
}

/// The abstract value of one asset. Together with the tree and level view
/// functions this forms the one recursive view cluster of the library;
/// every step descends by a single field, vector view, or element.
pub open spec fn sp_view_asset(a: XnbAsset) -> AssetV
    decreases a,
{
    match a {
        XnbAsset::Null => AssetV::Null,
        XnbAsset::String(v) => AssetV::String(v@),
        XnbAsset::Texture2D(v) => AssetV::Texture2D(v@),
        XnbAsset::Texture3D(v) => AssetV::Texture3D(v@),
        XnbAsset::Model(v) => AssetV::Model(v@),
        XnbAsset::VertexDeclaration(v) => AssetV::VertexDeclaration(v@),
        XnbAsset::VertexBuffer(v) => AssetV::VertexBuffer(v@),
        XnbAsset::IndexBuffer(v) => AssetV::IndexBuffer(v@),
        XnbAsset::BiTreeModel(v) => AssetV::BiTreeModel(
            crate::xnb::asset::bi_tree_model::sp_view_bi_tree_model(v),
        ),
        XnbAsset::AdditiveEffect(v) => AssetV::AdditiveEffect(v@),
        XnbAsset::RenderDeferredEffect(v) => AssetV::RenderDeferredEffect(v@),
        XnbAsset::RenderDeferredLiquidEffect(v) => AssetV::RenderDeferredLiquidEffect(v@),
        XnbAsset::LevelModel(v) => AssetV::LevelModel(
            crate::xnb::asset::level_model::sp_view_level_model(v),
        ),
    }
}

impl View for XnbAsset {
    type V = AssetV;

    open spec fn view(&self) -> AssetV {
        sp_view_asset(*self)
    }
}

/// Names of the manifest entries, in order.
pub open spec fn sp_names(trs: Seq<TypeReader>) -> Seq<Seq<char>> {
    trs.map_values(|t: TypeReader| t.name@)
}

/// The decoder names the dispatch recognizes (each already truncated at
/// the first comma).
pub open spec fn sp_known_reader(nm: Seq<char>) -> bool {
    ||| nm == "Microsoft.Xna.Framework.Content.StringReader"@
    ||| nm == "Microsoft.Xna.Framework.Content.Texture2DReader"@
    ||| nm == "Microsoft.Xna.Framework.Content.Texture3DReader"@
    ||| nm == "Microsoft.Xna.Framework.Content.ModelReader"@
    ||| nm == "Microsoft.Xna.Framework.Content.VertexDeclarationReader"@
    ||| nm == "Microsoft.Xna.Framework.Content.VertexBufferReader"@
    ||| nm == "Microsoft.Xna.Framework.Content.IndexBufferReader"@
    ||| nm == "PolygonHead.Pipeline.BiTreeModelReader"@
    ||| nm == "PolygonHead.Pipeline.AdditiveEffectReader"@
    ||| nm == "PolygonHead.Pipeline.RenderDeferredEffectReader"@
    ||| nm == "PolygonHead.Pipeline.RenderDeferredLiquidEffectReader"@
    ||| nm == "Magicka.ContentReaders.LevelModelReader"@
}

/// The bytes at `p` select a manifest entry whose name the dispatch does
/// not know: the one situation the dispatch reports as an unknown reader.
#[verifier::opaque]
pub open spec fn sp_unknown_reader_at(d: Seq<u8>, p: int, names: Seq<Seq<char>>) -> bool {
    match sp_varint(d, p) {
        Some((tid, p1)) => tid != 0 && 0 <= tid as int - 1 < names.len() && !sp_known_reader(
            sp_before_comma(names[tid as int - 1]),
        ),
        None => false,
    }
}

/// One polymorphic asset: a 7-bit encoded type index (zero meaning `Null`,
/// otherwise a one-based index into the manifest), then the payload of the
/// selected kind. Opaque so that one mention does not unfold the whole
/// grammar; proofs about the dispatch itself reveal it.
#[verifier::opaque]
pub open spec fn sp_asset(d: Seq<u8>, p: int, names: Seq<Seq<char>>) -> Option<(AssetV, int)>
    decreases d.len() - p, 0int,
{
    match sp_varint(d, p) {
        None => None,
        Some((tid, p1)) => {
            if tid == 0 {
                Some((AssetV::Null, p1))
            } else if !(0 <= tid as int - 1 < names.len()) {
                None
            } else if !(p < p1 <= d.len()) {
                None
            } else {
                let nm = sp_before_comma(names[tid as int - 1]);
                if nm == "Microsoft.Xna.Framework.Content.StringReader"@ {
                    match sp_string(d, p1) {
                        None => None,
                        Some((s, p2)) => Some((AssetV::String(s), p2)),
                    }
                } else if nm == "Microsoft.Xna.Framework.Content.Texture2DReader"@ {
                    match sp_texture2d(d, p1) {
                        None => None,
                        Some((v, p2)) => Some((AssetV::Texture2D(v), p2)),
                    }
                } else if nm == "Microsoft.Xna.Framework.Content.Texture3DReader"@ {
                    match sp_texture3d(d, p1) {
                        None => None,
                        Some((v, p2)) => Some((AssetV::Texture3D(v), p2)),
                    }
                } else if nm == "Microsoft.Xna.Framework.Content.ModelReader"@ {
                    match sp_model(d, p1, names) {
                        None => None,
                        Some((v, p2)) => Some((AssetV::Model(v), p2)),
                    }
                } else if nm == "Microsoft.Xna.Framework.Content.VertexDeclarationReader"@ {
                    match sp_vertex_decl(d, p1) {
                        None => None,
                        Some((v, p2)) => Some((AssetV::VertexDeclaration(v), p2)),
                    }
                } else if nm == "Microsoft.Xna.Framework.Content.VertexBufferReader"@ {
                    match sp_vertex_buffer(d, p1) {
                        None => None,
                        Some((v, p2)) => Some((AssetV::VertexBuffer(v), p2)),
                    }
                } else if nm == "Microsoft.Xna.Framework.Content.IndexBufferReader"@ {
                    match sp_index_buffer(d, p1) {
                        None => None,
                        Some((v, p2)) => Some((AssetV::IndexBuffer(v), p2)),
                    }
                } else if nm == "PolygonHead.Pipeline.BiTreeModelReader"@ {
                    match sp_bi_tree_model(d, p1, names) {
                        None => None,
                        Some((v, p2)) => Some((AssetV::BiTreeModel(v), p2)),
                    }
                } else if nm == "PolygonHead.Pipeline.AdditiveEffectReader"@ {
                    match sp_additive_effect(d, p1) {
                        None => None,
                        Some((v, p2)) => Some((AssetV::AdditiveEffect(v), p2)),
                    }
                } else if nm == "PolygonHead.Pipeline.RenderDeferredEffectReader"@ {
                    match sp_rde(d, p1) {
                        None => None,
                        Some((v, p2)) => Some((AssetV::RenderDeferredEffect(v), p2)),
                    }
                } else if nm == "PolygonHead.Pipeline.RenderDeferredLiquidEffectReader"@ {
                    match sp_rdle(d, p1) {
                        None => None,
                        Some((v, p2)) => Some((AssetV::RenderDeferredLiquidEffect(v), p2)),
                    }
                } else if nm == "Magicka.ContentReaders.LevelModelReader"@ {
                    match sp_level_model(d, p1, names) {
                        None => None,
                        Some((v, p2)) => Some((AssetV::LevelModel(v), p2)),
                    }
                } else {
                    None
                }
            }
        },
    }
}

impl XnbAsset {
    /// Decode one asset by dispatching on its type index. A type index that
    /// points outside the manifest, or a manifest name the dispatch does
    /// not know, is a hard error, never a silent `Null` or a misread.
    #[verifier::rlimit(100)]
    #[verifier::spinoff_prover]
    pub fn read(rd: &mut Reader, type_readers: &[TypeReader]) -> (r: Result<XnbAsset, DecodeError>)
        requires
            old(rd).wf(),
        ensures
            final(rd).wf(),
            final(rd).data@ == old(rd).data@,
            match r {
                Ok(v) => sp_asset(old(rd).data@, old(rd).pos as int, sp_names(type_readers@))
                    == Some((v@, final(rd).pos as int)) && final(rd).pos > old(rd).pos,
                Err(_) => sp_asset(old(rd).data@, old(rd).pos as int, sp_names(type_readers@))
                    is None,
            },
            sp_unknown_reader_at(old(rd).data@, old(rd).pos as int, sp_names(type_readers@))
                ==> r == Err::<XnbAsset, DecodeError>(DecodeError::UnknownTypeReader),
            sp_varint(old(rd).data@, old(rd).pos as int) is None ==> (r matches Err(e) && (e
                == DecodeError::MalformedVarint || e == DecodeError::Truncated) && ((e
                == DecodeError::MalformedVarint) <==> sp_varint_overlong(
                old(rd).data@,
                old(rd).pos as int,
            )) && final(rd).pos == old(rd).pos),
    decreases old(rd).data@.len() - old(rd).pos, 0int,
    {
        proof {
            reveal(sp_asset);
            reveal(sp_unknown_reader_at);
        }
        let ghost d = old(rd).data@;
        let ghost p0 = old(rd).pos as int;
        let ghost names = sp_names(type_readers@);
        let tid = match rd.read_varint() {
            Ok(v) => v,
            Err(e) => {
                return Err(e);
            },
        };
        if tid == 0 {
            return Ok(XnbAsset::Null);
        }
        let idx: usize = (tid - 1) as usize;
        if idx >= type_readers.len() {
            return Err(DecodeError::BadTypeIndex);
        }
        let tr = &type_readers[idx];
        let name = before_comma(tr.name.as_str());
        proof {
            assert(names[tid as int - 1] == type_readers@[idx as int].name@);
            assert(name@ == sp_before_comma(names[tid as int - 1]));
        }
        if str_eq(name.as_str(), "Microsoft.Xna.Framework.Content.StringReader") {
            match rd.read_string() {
                Ok(s) => Ok(XnbAsset::String(s)),
                Err(e) => Err(e),
            }
        } else if str_eq(name.as_str(), "Microsoft.Xna.Framework.Content.Texture2DReader") {
            match Texture2D::read(rd) {
                Ok(v) => Ok(XnbAsset::Texture2D(v)),
                Err(e) => Err(e),
            }
        } else if str_eq(name.as_str(), "Microsoft.Xna.Framework.Content.Texture3DReader") {
            match Texture3D::read(rd) {
                Ok(v) => Ok(XnbAsset::Texture3D(v)),
                Err(e) => Err(e),
            }
        } else if str_eq(name.as_str(), "Microsoft.Xna.Framework.Content.ModelReader") {
            match Model::read(rd, type_readers) {
                Ok(v) => Ok(XnbAsset::Model(v)),
                Err(e) => Err(e),
            }
        } else if str_eq(name.as_str(), "Microsoft.Xna.Framework.Content.VertexDeclarationReader") {
            match VertexDeclaration::read(rd) {
                Ok(v) => Ok(XnbAsset::VertexDeclaration(v)),
                Err(e) => Err(e),
            }
        } else if str_eq(name.as_str(), "Microsoft.Xna.Framework.Content.VertexBufferReader") {
            match VertexBuffer::read(rd) {
                Ok(v) => Ok(XnbAsset::VertexBuffer(v)),
                Err(e) => Err(e),
            }
        } else if str_eq(name.as_str(), "Microsoft.Xna.Framework.Content.IndexBufferReader") {
            match IndexBuffer::read(rd) {
                Ok(v) => Ok(XnbAsset::IndexBuffer(v)),
                Err(e) => Err(e),
            }
        } else if str_eq(name.as_str(), "PolygonHead.Pipeline.BiTreeModelReader") {
            match BiTreeModel::read(rd, type_readers) {
                Ok(v) => Ok(XnbAsset::BiTreeModel(v)),
                Err(e) => Err(e),
            }
        } else if str_eq(name.as_str(), "PolygonHead.Pipeline.AdditiveEffectReader") {
            match AdditiveEffect::read(rd) {
                Ok(v) => Ok(XnbAsset::AdditiveEffect(v)),
                Err(e) => Err(e),
            }
        } else if str_eq(name.as_str(), "PolygonHead.Pipeline.RenderDeferredEffectReader") {
            match RenderDeferredEffect::read(rd) {
                Ok(v) => Ok(XnbAsset::RenderDeferredEffect(v)),
                Err(e) => Err(e),
            }
        } else if str_eq(name.as_str(), "PolygonHead.Pipeline.RenderDeferredLiquidEffectReader") {
            match RenderDeferredLiquidEffect::read(rd) {
                Ok(v) => Ok(XnbAsset::RenderDeferredLiquidEffect(v)),
                Err(e) => Err(e),
            }
        } else if str_eq(name.as_str(), "Magicka.ContentReaders.LevelModelReader") {
            match LevelModel::read(rd, type_readers) {
                Ok(v) => Ok(XnbAsset::LevelModel(v)),
                Err(e) => Err(e),
            }
        } else {
            Err(DecodeError::UnknownTypeReader)
        }
    }
}

/// `n` consecutive polymorphic assets, as in the shared-asset section.
pub open spec fn sp_assets(d: Seq<u8>, p: int, names: Seq<Seq<char>>, n: nat) -> Option<
    (Seq<AssetV>, int),
>
    decreases d.len() - p, 1int, n,
{
    if n == 0 {
        Some((Seq::empty(), p))
    } else {
        match sp_asset(d, p, names) {
            None => None,
            Some((v, p1)) => {
                if p < p1 <= d.len() {
                    match sp_assets(d, p1, names, (n - 1) as nat) {
                        None => None,
                        Some((vs, p2)) => Some((Seq::empty().push(v) + vs, p2)),
                    }
                } else {
                    None
                }
            },
        }
    }
}

/// Reads `n` consecutive assets.
pub fn read_assets(rd: &mut Reader, type_readers: &[TypeReader], n: u32) -> (r: Result<
    Vec<XnbAsset>,
    DecodeError,
>)
    requires
        old(rd).wf(),
    ensures
        final(rd).wf(),
        final(rd).data@ == old(rd).data@,
        r is Ok ==> final(rd).pos >= old(rd).pos,
        match r {
            Ok(v) => sp_assets(old(rd).data@, old(rd).pos as int, sp_names(type_readers@), n as nat)
                == Some((v@.map_values(|a: XnbAsset| a@), final(rd).pos as int)),
            Err(_) => sp_assets(
                old(rd).data@,
                old(rd).pos as int,
                sp_names(type_readers@),
                n as nat,
            ) is None,
        },
    decreases old(rd).data@.len() - old(rd).pos, 1int,
{
    let ghost d = old(rd).data@;
    let ghost p0 = old(rd).pos as int;
    let ghost names = sp_names(type_readers@);
    let mut assets: Vec<XnbAsset> = Vec::new();
    let mut i: u32 = 0;
    while i < n
        invariant
            rd.wf(),
            rd.data@ == d,
            d == old(rd).data@,
            p0 <= rd.pos,
            p0 == old(rd).pos,
            p0 <= rd.pos,
            names == sp_names(type_readers@),
            i <= n,
            assets@.len() == i,
            sp_assets(d, p0, names, n as nat) == match sp_assets(
                d,
                rd.pos as int,
                names,
                (n - i) as nat,
            ) {
                None => None::<(Seq<AssetV>, int)>,
                Some((vs, pe)) => Some((assets@.map_values(|a: XnbAsset| a@) + vs, pe)),
            },
        decreases n - i,
    {
        let a = match XnbAsset::read(rd, type_readers) {
            Ok(v) => v,
            Err(e) => {
                return Err(e);
            },
        };
        proof {
            match sp_assets(d, rd.pos as int, names, (n - i - 1) as nat) {
                Some((vs, pe)) => {
                    assert(assets@.push(a).map_values(|x: XnbAsset| x@) + vs =~= assets@.map_values(
                        |x: XnbAsset| x@,
                    ) + (Seq::empty().push(a@) + vs));
                },
                None => {},
            }
        }
        assets.push(a);
        i = i + 1;
    }
    proof {
        assert(assets@.map_values(|x: XnbAsset| x@) + Seq::<AssetV>::empty() =~= assets@.map_values(
            |x: XnbAsset| x@,
        ));
    }
    Ok(assets)
}

} // verus!

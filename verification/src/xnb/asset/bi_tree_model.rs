use vstd::prelude::*;

use crate::err::DecodeError;
use crate::reader::{sp_bool, sp_f32bits, sp_i32le, Reader};
use crate::xnb::asset::index_buffer::{IndexBuffer, IndexBufferV};
use crate::xnb::asset::model::{sp_bounding_box, BoundingBox};
use crate::xnb::asset::vertex_buffer::{VertexBuffer, VertexBufferV};
use crate::xnb::asset::vertex_decl::{VertexDeclaration, VertexDeclarationV};
use crate::xnb::asset::{sp_asset, sp_names, sp_view_asset, AssetV, XnbAsset};
use crate::xnb::TypeReader;

verus! {

/// A node of the binary partition tree: a slice of the owning tree's index
/// buffer, a bounding box, and up to two owned children.
#[derive(Debug, PartialEq, Eq)]
pub struct BiTreeNode {
    pub primitive_count: i32,
    pub start_index: i32,
    pub bounding_box: BoundingBox,
    pub child_a: Option<Box<BiTreeNode>>,
    pub child_b: Option<Box<BiTreeNode>>,
}

pub struct BiTreeNodeV {
    pub primitive_count: i32,
    pub start_index: i32,
    pub bounding_box: BoundingBox,
    pub child_a: Option<Box<BiTreeNodeV>>,
    pub child_b: Option<Box<BiTreeNodeV>>,
}

impl View for BiTreeNode {
    type V = BiTreeNodeV;

    open spec fn view(&self) -> BiTreeNodeV
        decreases self,
    {
        BiTreeNodeV {
            primitive_count: self.primitive_count,
            start_index: self.start_index,
            bounding_box: self.bounding_box,
            child_a: match self.child_a {
                Some(c) => Some(Box::new((*c)@)),
                None => None,
            },
            child_b: match self.child_b {
                Some(c) => Some(Box::new((*c)@)),
                None => None,
            },
        }
    }
}

/// One tree node: counts, box, then each child gated by a presence flag.
pub open spec fn sp_bi_node(d: Seq<u8>, p: int) -> Option<(BiTreeNodeV, int)>
    decreases d.len() - p,
{
    match sp_i32le(d, p) {
        None => None,
        Some((primitive_count, p1)) => match sp_i32le(d, p1) {
            None => None,
            Some((start_index, p2)) => match sp_bounding_box(d, p2) {
                None => None,
                Some((bounding_box, p3)) => match sp_bool(d, p3) {
                    None => None,
                    Some((has_a, p4)) => {
                        let a = if has_a {
                            if p < p4 <= d.len() {
                                match sp_bi_node(d, p4) {
                                    None => None,
                                    Some((n, p5)) => Some((Some(n), p5)),
                                }
                            } else {
                                None
                            }
                        } else {
                            Some((None, p4))
                        };
                        match a {
                            None => None,
                            Some((child_a, p5)) => match sp_bool(d, p5) {
                                None => None,
                                Some((has_b, p6)) => {
                                    let b = if has_b {
                                        if p < p6 <= d.len() {
                                            match sp_bi_node(d, p6) {
                                                None => None,
                                                Some((n, p7)) => Some((Some(n), p7)),
                                            }
                                        } else {
                                            None
                                        }
                                    } else {
                                        Some((None, p6))
                                    };
                                    match b {
                                        None => None,
                                        Some((child_b, p7)) => Some(
                                            (
                                                BiTreeNodeV {
                                                    primitive_count,
                                                    start_index,
                                                    bounding_box,
                                                    child_a: match child_a {
                                                        Some(n) => Some(Box::new(n)),
                                                        None => None,
                                                    },
                                                    child_b: match child_b {
                                                        Some(n) => Some(Box::new(n)),
                                                        None => None,
                                                    },
                                                },
                                                p7,
                                            ),
                                        ),
                                    }
                                },
                            },
                        }
                    },
                },
            },
        },
    }
}

/// The children of a node in visiting order: the first child if present,
/// then the second.
pub open spec fn sp_children(n: BiTreeNodeV) -> Seq<BiTreeNodeV> {
    (match n.child_a {
        Some(c) => Seq::empty().push(*c),
        None => Seq::empty(),
    }) + (match n.child_b {
        Some(c) => Seq::empty().push(*c),
        None => Seq::empty(),
    })
}

impl BiTreeNode {
    pub fn read(rd: &mut Reader) -> (r: Result<BiTreeNode, DecodeError>)
        requires
            old(rd).wf(),
        ensures
            final(rd).wf(),
            final(rd).data@ == old(rd).data@,
            match r {
                Ok(v) => sp_bi_node(old(rd).data@, old(rd).pos as int) == Some(
                    (v@, final(rd).pos as int),
                ) && final(rd).pos > old(rd).pos,
                Err(_) => sp_bi_node(old(rd).data@, old(rd).pos as int) is None,
            },
        decreases old(rd).data@.len() - old(rd).pos,
    {
        let primitive_count = match rd.read_i32le() {
            Ok(v) => v,
            Err(e) => {
                return Err(e);
            },
        };
        let start_index = match rd.read_i32le() {
            Ok(v) => v,
            Err(e) => {
                return Err(e);
            },
        };
        let bounding_box = match BoundingBox::read(rd) {
            Ok(v) => v,
            Err(e) => {
                return Err(e);
            },
        };
        let has_a = match rd.read_bool() {
            Ok(v) => v,
            Err(e) => {
                return Err(e);
            },
        };
        let child_a = if has_a {
            match BiTreeNode::read(rd) {
                Ok(n) => Some(Box::new(n)),
                Err(e) => {
                    return Err(e);
                },
            }
        } else {
            None
        };
        let has_b = match rd.read_bool() {
            Ok(v) => v,
            Err(e) => {
                return Err(e);
            },
        };
        let child_b = if has_b {
            match BiTreeNode::read(rd) {
                Ok(n) => Some(Box::new(n)),
                Err(e) => {
                    return Err(e);
                },
            }
        } else {
            None
        };
        Ok(BiTreeNode { primitive_count, start_index, bounding_box, child_a, child_b })
    }

    /// The node's present children, first slot before second: a present
    /// first child and an absent second yield exactly one node.
    pub fn iter_children(&self) -> (r: Vec<&BiTreeNode>)
        ensures
            r@.map_values(|c: &BiTreeNode| c@) == sp_children(self@),
    {
        let mut out: Vec<&BiTreeNode> = Vec::new();
        match &self.child_a {
            Some(c) => {
                out.push(c);
            },
            None => {},
        }
        match &self.child_b {
            Some(c) => {
                out.push(c);
            },
            None => {},
        }
        proof {
            assert(out@.map_values(|c: &BiTreeNode| c@) =~= sp_children(self@));
        }
        out
    }
}

/// One partition tree: draw flags, derived vertex facts, its own buffers
/// and schema, a material asset of any kind, and the root node.
#[derive(Debug)]
pub struct BiTree {
    pub visible: bool,
    pub cast_shadows: bool,
    pub sway: u32,
    pub entity_influence: u32,
    pub ground_level: u32,
    pub num_vertices: i32,
    pub vertex_stride: i32,
    pub vertex_decl: VertexDeclaration,
    pub vertex_buffer: VertexBuffer,
    pub index_buffer: IndexBuffer,
    pub effect: XnbAsset,
    pub node: BiTreeNode,
}

pub struct BiTreeV {
    pub visible: bool,
    pub cast_shadows: bool,
    pub sway: u32,
    pub entity_influence: u32,
    pub ground_level: u32,
    pub num_vertices: i32,
    pub vertex_stride: i32,
    pub vertex_decl: VertexDeclarationV,
    pub vertex_buffer: VertexBufferV,
    pub index_buffer: IndexBufferV,
    pub effect: AssetV,
    pub node: BiTreeNodeV,
}

/// The abstract value of one tree.
pub open spec fn sp_view_bi_tree(t: BiTree) -> BiTreeV
    decreases t,
{
    BiTreeV {
        visible: t.visible,
        cast_shadows: t.cast_shadows,
        sway: t.sway,
        entity_influence: t.entity_influence,
        ground_level: t.ground_level,
        num_vertices: t.num_vertices,
        vertex_stride: t.vertex_stride,
        vertex_decl: t.vertex_decl@,
        vertex_buffer: t.vertex_buffer@,
        index_buffer: t.index_buffer@,
        effect: sp_view_asset(t.effect),
        node: t.node@,
    }
}

impl View for BiTree {
    type V = BiTreeV;

    open spec fn view(&self) -> BiTreeV {
        sp_view_bi_tree(*self)
    }
}

pub open spec fn sp_bi_tree(d: Seq<u8>, p: int, names: Seq<Seq<char>>) -> Option<(BiTreeV, int)>
    decreases d.len() - p, 1int,
{
    match sp_bool(d, p) {
        None => None,
        Some((visible, p1)) => match sp_bool(d, p1) {
            None => None,
            Some((cast_shadows, p2)) => match sp_f32bits(d, p2) {
                None => None,
                Some((sway, p3)) => match sp_f32bits(d, p3) {
                    None => None,
                    Some((entity_influence, p4)) => match sp_f32bits(d, p4) {
                        None => None,
                        Some((ground_level, p5)) => match sp_i32le(d, p5) {
                            None => None,
                            Some((num_vertices, p6)) => match sp_i32le(d, p6) {
                                None => None,
                                Some((vertex_stride, p7)) => {
                                    if !(p < p7 <= d.len()) {
                                        None
                                    } else {
                                        sp_bi_tree_rest(
                                            d,
                                            p,
                                            p7,
                                            names,
                                            visible,
                                            cast_shadows,
                                            sway,
                                            entity_influence,
                                            ground_level,
                                            num_vertices,
                                            vertex_stride,
                                        )
                                    }
                                },
                            },
                        },
                    },
                },
            },
        },
    }
}

/// The asset-bearing tail of one tree, after its flat scalar prefix.
pub open spec fn sp_bi_tree_rest(
    d: Seq<u8>,
    p: int,
    p7: int,
    names: Seq<Seq<char>>,
    visible: bool,
    cast_shadows: bool,
    sway: u32,
    entity_influence: u32,
    ground_level: u32,
    num_vertices: i32,
    vertex_stride: i32,
) -> Option<(BiTreeV, int)>
    decreases d.len() - p, 0int,
{
    if !(p < p7 <= d.len()) {
        None
    } else {
        match sp_asset(d, p7, names) {
            None => None,
            Some((a0, p8)) => match a0 {
                AssetV::VertexDeclaration(vertex_decl) => {
                    if !(p < p8 <= d.len()) {
                        None
                    } else {
                        match sp_asset(d, p8, names) {
                            None => None,
                            Some((a1, p9)) => match a1 {
                                AssetV::VertexBuffer(vertex_buffer) => {
                                    if !(p < p9 <= d.len()) {
                                        None
                                    } else {
                                        match sp_asset(d, p9, names) {
                                            None => None,
                                            Some((a2, p10)) => match a2 {
                                                AssetV::IndexBuffer(index_buffer) => {
                                                    if !(p < p10 <= d.len()) {
                                                        None
                                                    } else {
                                                        match sp_asset(d, p10, names) {
                                                            None => None,
                                                            Some((effect, p11)) => match
                                                                sp_bi_node(d, p11) {
                                                                None => None,
                                                                Some((node, p12)) => Some(
                                                                    (
                                                                        BiTreeV {
                                                                            visible,
                                                                            cast_shadows,
                                                                            sway,
                                                                            entity_influence,
                                                                            ground_level,
                                                                            num_vertices,
                                                                            vertex_stride,
                                                                            vertex_decl,
                                                                            vertex_buffer,
                                                                            index_buffer,
                                                                            effect,
                                                                            node,
                                                                        },
                                                                        p12,
                                                                    ),
                                                                ),
                                                            },
                                                        }
                                                    }
                                                },
                                                _ => None,
                                            },
                                        }
                                    }
                                },
                                _ => None,
                            },
                        }
                    }
                },
                _ => None,
            },
        }
    }
}

impl BiTree {
    #[verifier::rlimit(100)]
    pub fn read(rd: &mut Reader, type_readers: &[TypeReader]) -> (r: Result<BiTree, DecodeError>)
        requires
            old(rd).wf(),
        ensures
            final(rd).wf(),
            final(rd).data@ == old(rd).data@,
            match r {
                Ok(v) => sp_bi_tree(old(rd).data@, old(rd).pos as int, sp_names(type_readers@))
                    == Some((v@, final(rd).pos as int)) && final(rd).pos > old(rd).pos,
                Err(_) => sp_bi_tree(old(rd).data@, old(rd).pos as int, sp_names(type_readers@))
                    is None,
            },
    decreases old(rd).data@.len() - old(rd).pos, 0int,
    {
        let visible = match rd.read_bool() {
            Ok(v) => v,
            Err(e) => {
                return Err(e);
            },
        };
        let cast_shadows = match rd.read_bool() {
            Ok(v) => v,
            Err(e) => {
                return Err(e);
            },
        };
        let sway = match rd.read_f32bits() {
            Ok(v) => v,
            Err(e) => {
                return Err(e);
            },
        };
        let entity_influence = match rd.read_f32bits() {
            Ok(v) => v,
            Err(e) => {
                return Err(e);
            },
        };
        let ground_level = match rd.read_f32bits() {
            Ok(v) => v,
            Err(e) => {
                return Err(e);
            },
        };
        let num_vertices = match rd.read_i32le() {
            Ok(v) => v,
            Err(e) => {
                return Err(e);
            },
        };
        let vertex_stride = match rd.read_i32le() {
            Ok(v) => v,
            Err(e) => {
                return Err(e);
            },
        };
        let vertex_decl = match XnbAsset::read(rd, type_readers) {
            Ok(XnbAsset::VertexDeclaration(v)) => v,
            Ok(_) => {
                return Err(DecodeError::UnexpectedAsset);
            },
            Err(e) => {
                return Err(e);
            },
        };
        let vertex_buffer = match XnbAsset::read(rd, type_readers) {
            Ok(XnbAsset::VertexBuffer(v)) => v,
            Ok(_) => {
                return Err(DecodeError::UnexpectedAsset);
            },
            Err(e) => {
                return Err(e);
            },
        };
        let index_buffer = match XnbAsset::read(rd, type_readers) {
            Ok(XnbAsset::IndexBuffer(v)) => v,
            Ok(_) => {
                return Err(DecodeError::UnexpectedAsset);
            },
            Err(e) => {
                return Err(e);
            },
        };
        let effect = match XnbAsset::read(rd, type_readers) {
            Ok(v) => v,
            Err(e) => {
                return Err(e);
            },
        };
        let node = match BiTreeNode::read(rd) {
            Ok(v) => v,
            Err(e) => {
                return Err(e);
            },
        };
        Ok(
            BiTree {
                visible,
                cast_shadows,
                sway,
                entity_influence,
                ground_level,
                num_vertices,
                vertex_stride,
                vertex_decl,
                vertex_buffer,
                index_buffer,
                effect,
                node,
            },
        )
    }
}

/// `n` consecutive trees.
pub open spec fn sp_bi_trees(d: Seq<u8>, p: int, names: Seq<Seq<char>>, n: nat) -> Option<
    (Seq<BiTreeV>, int),
>
    decreases d.len() - p, 2int, n,
{
    if n == 0 {
        Some((Seq::empty(), p))
    } else {
        match sp_bi_tree(d, p, names) {
            None => None,
            Some((v, p1)) => {
                if p < p1 <= d.len() {
                    match sp_bi_trees(d, p1, names, (n - 1) as nat) {
                        None => None,
                        Some((vs, p2)) => Some((Seq::empty().push(v) + vs, p2)),
                    }
                } else {
                    None
                }
            },
        }
    }
}

fn read_bi_trees(rd: &mut Reader, type_readers: &[TypeReader], n: u32) -> (r: Result<
    Vec<BiTree>,
    DecodeError,
>)
    requires
        old(rd).wf(),
    ensures
        final(rd).wf(),
        final(rd).data@ == old(rd).data@,
        r is Ok ==> final(rd).pos >= old(rd).pos,
        match r {
            Ok(v) => sp_bi_trees(
                old(rd).data@,
                old(rd).pos as int,
                sp_names(type_readers@),
                n as nat,
            ) == Some((v@.map_values(|t: BiTree| t@), final(rd).pos as int)),
            Err(_) => sp_bi_trees(
                old(rd).data@,
                old(rd).pos as int,
                sp_names(type_readers@),
                n as nat,
            ) is None,
        },
    decreases old(rd).data@.len() - old(rd).pos, 1int,
{
    let ghost d = old(rd).data@;
    let ghost p0 = old(rd).pos as int;
    let ghost names = sp_names(type_readers@);
    let mut trees: Vec<BiTree> = Vec::new();
    let mut i: u32 = 0;
    while i < n
        invariant
            rd.wf(),
            rd.data@ == d,
            d == old(rd).data@,
            p0 <= rd.pos,
            p0 == old(rd).pos,
            p0 <= rd.pos,
            names == sp_names(type_readers@),
            i <= n,
            trees@.len() == i,
            sp_bi_trees(d, p0, names, n as nat) == match sp_bi_trees(
                d,
                rd.pos as int,
                names,
                (n - i) as nat,
            ) {
                None => None::<(Seq<BiTreeV>, int)>,
                Some((vs, pe)) => Some((trees@.map_values(|t: BiTree| t@) + vs, pe)),
            },
        decreases n - i,
    {
        let t = match BiTree::read(rd, type_readers) {
            Ok(v) => v,
            Err(e) => {
                return Err(e);
            },
        };
        proof {
            match sp_bi_trees(d, rd.pos as int, names, (n - i - 1) as nat) {
                Some((vs, pe)) => {
                    assert(trees@.push(t).map_values(|x: BiTree| x@) + vs =~= trees@.map_values(
                        |x: BiTree| x@,
                    ) + (Seq::empty().push(t@) + vs));
                },
                None => {},
            }
        }
        trees.push(t);
        i = i + 1;
    }
    proof {
        assert(trees@.map_values(|x: BiTree| x@) + Seq::<BiTreeV>::empty() =~= trees@.map_values(
            |x: BiTree| x@,
        ));
    }
    Ok(trees)
}

/// The list of partition trees of a level.
#[derive(Debug)]
pub struct BiTreeModel {
    pub trees: Vec<BiTree>,
}

pub struct BiTreeModelV {
    pub trees: Seq<BiTreeV>,
}

/// Abstract values of a tree sequence, built element by element.
pub open spec fn sp_view_trees_seq(s: Seq<BiTree>) -> Seq<BiTreeV>
    decreases s,
{
    if s.len() == 0 {
        Seq::empty()
    } else {
        sp_view_trees_seq(s.drop_last()).push(sp_view_bi_tree(s.last()))
    }
}

pub open spec fn sp_view_trees_vec(v: Vec<BiTree>) -> Seq<BiTreeV>
    decreases v,
{
    sp_view_trees_seq(v@)
}

/// The abstract value of a tree list.
pub open spec fn sp_view_bi_tree_model(m: BiTreeModel) -> BiTreeModelV
    decreases m,
{
    BiTreeModelV { trees: sp_view_trees_vec(m.trees) }
}

impl View for BiTreeModel {
    type V = BiTreeModelV;

    open spec fn view(&self) -> BiTreeModelV {
        sp_view_bi_tree_model(*self)
    }
}

/// Element by element, the sequence view agrees with mapping each tree to
/// its view.
pub proof fn lemma_view_trees_seq(s: Seq<BiTree>)
    ensures
        sp_view_trees_seq(s) =~= s.map_values(|t: BiTree| t@),
    decreases s.len(),
{
    if s.len() > 0 {
        lemma_view_trees_seq(s.drop_last());
    }
}

pub open spec fn sp_bi_tree_model(d: Seq<u8>, p: int, names: Seq<Seq<char>>) -> Option<
    (BiTreeModelV, int),
>
    decreases d.len() - p, 0int,
{
    match sp_i32le(d, p) {
        None => None,
        Some((n, p1)) => {
            if !(p < p1 <= d.len()) {
                None
            } else {
                match sp_bi_trees(d, p1, names, crate::xnb::asset::animation::sp_count(n)) {
                    None => None,
                    Some((trees, p2)) => Some((BiTreeModelV { trees }, p2)),
                }
            }
        },
    }
}

impl BiTreeModel {
    #[verifier::rlimit(100)]
    pub fn read(rd: &mut Reader, type_readers: &[TypeReader]) -> (r: Result<
        BiTreeModel,
        DecodeError,
    >)
        requires
            old(rd).wf(),
        ensures
            final(rd).wf(),
            final(rd).data@ == old(rd).data@,
            match r {
                Ok(v) => sp_bi_tree_model(
                    old(rd).data@,
                    old(rd).pos as int,
                    sp_names(type_readers@),
                ) == Some((v@, final(rd).pos as int)) && final(rd).pos > old(rd).pos,
                Err(_) => sp_bi_tree_model(
                    old(rd).data@,
                    old(rd).pos as int,
                    sp_names(type_readers@),
                ) is None,
            },
    decreases old(rd).data@.len() - old(rd).pos, 0int,
    {
        let num = match rd.read_i32le() {
            Ok(v) => v,
            Err(e) => {
                return Err(e);
            },
        };
        let n: u32 = if num < 0 {
            0
        } else {
            num as u32
        };
        let trees = match read_bi_trees(rd, type_readers, n) {
            Ok(v) => v,
            Err(e) => {
                return Err(e);
            },
        };
        proof {
            lemma_view_trees_seq(trees@);
        }
        Ok(BiTreeModel { trees })
    }
}

} // verus!

use vstd::prelude::*;
use vstd::string::StringExecFns;

use crate::err::DecodeError;
use crate::reader::{sp_u16le, sp_u32le, sp_u8, Reader};

verus! {

/// Data type of one vertex element.
#[derive(Debug, Clone, Copy, PartialEq, Eq, Structural, Hash)]
pub enum ElementFormat {
    Single,
    Vector2,
    Vector3,
    Vector4,
    Color,
    Byte4,
    Short2,
    Short4,
    Rgba32,
    NormalizedShort2,
    NormalizedShort4,
    Rgb32,
    Rgba64,
    UInt40,
    Normalized40,
    HalfVector2,
    HalfVector4,
}

/// Interpolation method of one vertex element.
#[derive(Debug, Clone, Copy, PartialEq, Eq, Structural, Hash)]
pub enum ElementMethod {
    Default,
    UV,
    LookUp,
    LookUpPresampled,
}

/// Semantic meaning of one vertex element.
#[derive(Debug, Clone, Copy, PartialEq, Eq, Structural, Hash)]
pub enum ElementUsage {
    Position,
    BlendWeight,
    BlendIndices,
    Normal,
    PointSize,
    TextureCoordinate,
    Tangent,
    Binormal,
    TessellateFactor,
    Color,
    Fog,
    Depth,
    Sample,
}

pub open spec fn sp_element_format_of(b: u8) -> Option<ElementFormat> {
    if b == 0 {
        Some(ElementFormat::Single)
    } else if b == 1 {
        Some(ElementFormat::Vector2)
    } else if b == 2 {
        Some(ElementFormat::Vector3)
    } else if b == 3 {
        Some(ElementFormat::Vector4)
    } else if b == 4 {
        Some(ElementFormat::Color)
    } else if b == 5 {
        Some(ElementFormat::Byte4)
    } else if b == 6 {
        Some(ElementFormat::Short2)
    } else if b == 7 {
        Some(ElementFormat::Short4)
    } else if b == 8 {
        Some(ElementFormat::Rgba32)
    } else if b == 9 {
        Some(ElementFormat::NormalizedShort2)
    } else if b == 10 {
        Some(ElementFormat::NormalizedShort4)
    } else if b == 11 {
        Some(ElementFormat::Rgb32)
    } else if b == 12 {
        Some(ElementFormat::Rgba64)
    } else if b == 13 {
        Some(ElementFormat::UInt40)
    } else if b == 14 {
        Some(ElementFormat::Normalized40)
    } else if b == 15 {
        Some(ElementFormat::HalfVector2)
    } else if b == 16 {
        Some(ElementFormat::HalfVector4)
    } else {
        None
    }
}

pub open spec fn sp_element_method_of(b: u8) -> Option<ElementMethod> {
    if b == 0 {
        Some(ElementMethod::Default)
    } else if b == 4 {
        Some(ElementMethod::UV)
    } else if b == 5 {
        Some(ElementMethod::LookUp)
    } else if b == 6 {
        Some(ElementMethod::LookUpPresampled)
    } else {
        None
    }
}

pub open spec fn sp_element_usage_of(b: u8) -> Option<ElementUsage> {
    if b == 0 {
        Some(ElementUsage::Position)
    } else if b == 1 {
        Some(ElementUsage::BlendWeight)
    } else if b == 2 {
        Some(ElementUsage::BlendIndices)
    } else if b == 3 {
        Some(ElementUsage::Normal)
    } else if b == 4 {
        Some(ElementUsage::PointSize)
    } else if b == 5 {
        Some(ElementUsage::TextureCoordinate)
    } else if b == 6 {
        Some(ElementUsage::Tangent)
    } else if b == 7 {
        Some(ElementUsage::Binormal)
    } else if b == 8 {
        Some(ElementUsage::TessellateFactor)
    } else if b == 10 {
        Some(ElementUsage::Color)
    } else if b == 11 {
        Some(ElementUsage::Fog)
    } else if b == 12 {
        Some(ElementUsage::Depth)
    } else if b == 13 {
        Some(ElementUsage::Sample)
    } else {
        None
    }
}

impl ElementFormat {
    pub fn read(rd: &mut Reader) -> (r: Result<ElementFormat, DecodeError>)
        requires
            old(rd).wf(),
        ensures
            final(rd).wf(),
            final(rd).data@ == old(rd).data@,
            match r {
                Ok(v) => sp_u8(old(rd).data@, old(rd).pos as int) matches Some((b, p1))
                    && sp_element_format_of(b) == Some(v) && final(rd).pos == p1,
                Err(e) => {
                    match sp_u8(old(rd).data@, old(rd).pos as int) {
                        None => e == DecodeError::Truncated && final(rd).pos == old(rd).pos,
                        Some((b, _)) => sp_element_format_of(b) is None && e
                            == DecodeError::UnknownElementFormat(b),
                    }
                },
            },
    {
        let b = match rd.read_u8() {
            Ok(v) => v,
            Err(e) => {
                return Err(e);
            },
        };
        match b {
            0 => Ok(ElementFormat::Single),
            1 => Ok(ElementFormat::Vector2),
            2 => Ok(ElementFormat::Vector3),
            3 => Ok(ElementFormat::Vector4),
            4 => Ok(ElementFormat::Color),
            5 => Ok(ElementFormat::Byte4),
            6 => Ok(ElementFormat::Short2),
            7 => Ok(ElementFormat::Short4),
            8 => Ok(ElementFormat::Rgba32),
            9 => Ok(ElementFormat::NormalizedShort2),
            10 => Ok(ElementFormat::NormalizedShort4),
            11 => Ok(ElementFormat::Rgb32),
            12 => Ok(ElementFormat::Rgba64),
            13 => Ok(ElementFormat::UInt40),
            14 => Ok(ElementFormat::Normalized40),
            15 => Ok(ElementFormat::HalfVector2),
            16 => Ok(ElementFormat::HalfVector4),
            _ => Err(DecodeError::UnknownElementFormat(b)),
        }
    }

    /// Byte width of the formats the library supports; the remaining
    /// formats never appear in the supported content and are excluded by
    /// the caller's obligation.
    pub open spec fn sp_sized(self) -> bool {
        self == ElementFormat::Single || self == ElementFormat::Vector2 || self
            == ElementFormat::Vector3 || self == ElementFormat::Vector4 || self
            == ElementFormat::Byte4
    }

    pub open spec fn sp_size(self) -> int {
        if self == ElementFormat::Single {
            4
        } else if self == ElementFormat::Vector2 {
            8
        } else if self == ElementFormat::Vector3 {
            12
        } else if self == ElementFormat::Vector4 {
            16
        } else if self == ElementFormat::Byte4 {
            4
        } else {
            0
        }
    }

    pub fn size(self) -> (r: usize)
        requires
            self.sp_sized(),
        ensures
            r == self.sp_size(),
    {
        match self {
            ElementFormat::Single => 4,
            ElementFormat::Vector2 => 8,
            ElementFormat::Vector3 => 12,
            ElementFormat::Vector4 => 16,
            ElementFormat::Byte4 => 4,
            _ => 0,
        }
    }
}

impl ElementMethod {
    pub fn read(rd: &mut Reader) -> (r: Result<ElementMethod, DecodeError>)
        requires
            old(rd).wf(),
        ensures
            final(rd).wf(),
            final(rd).data@ == old(rd).data@,
            match r {
                Ok(v) => sp_u8(old(rd).data@, old(rd).pos as int) matches Some((b, p1))
                    && sp_element_method_of(b) == Some(v) && final(rd).pos == p1,
                Err(e) => {
                    match sp_u8(old(rd).data@, old(rd).pos as int) {
                        None => e == DecodeError::Truncated && final(rd).pos == old(rd).pos,
                        Some((b, _)) => sp_element_method_of(b) is None && e
                            == DecodeError::UnknownElementMethod(b),
                    }
                },
            },
    {
        let b = match rd.read_u8() {
            Ok(v) => v,
            Err(e) => {
                return Err(e);
            },
        };
        match b {
            0 => Ok(ElementMethod::Default),
            4 => Ok(ElementMethod::UV),
            5 => Ok(ElementMethod::LookUp),
            6 => Ok(ElementMethod::LookUpPresampled),
            _ => Err(DecodeError::UnknownElementMethod(b)),
        }
    }
}

impl ElementUsage {
    pub fn read(rd: &mut Reader) -> (r: Result<ElementUsage, DecodeError>)
        requires
            old(rd).wf(),
        ensures
            final(rd).wf(),
            final(rd).data@ == old(rd).data@,
            match r {
                Ok(v) => sp_u8(old(rd).data@, old(rd).pos as int) matches Some((b, p1))
                    && sp_element_usage_of(b) == Some(v) && final(rd).pos == p1,
                Err(e) => {
                    match sp_u8(old(rd).data@, old(rd).pos as int) {
                        None => e == DecodeError::Truncated && final(rd).pos == old(rd).pos,
                        Some((b, _)) => sp_element_usage_of(b) is None && e
                            == DecodeError::UnknownElementUsage(b),
                    }
                },
            },
    {
        let b = match rd.read_u8() {
            Ok(v) => v,
            Err(e) => {
                return Err(e);
            },
        };
        match b {
            0 => Ok(ElementUsage::Position),
            1 => Ok(ElementUsage::BlendWeight),
            2 => Ok(ElementUsage::BlendIndices),
            3 => Ok(ElementUsage::Normal),
            4 => Ok(ElementUsage::PointSize),
            5 => Ok(ElementUsage::TextureCoordinate),
            6 => Ok(ElementUsage::Tangent),
            7 => Ok(ElementUsage::Binormal),
            8 => Ok(ElementUsage::TessellateFactor),
            10 => Ok(ElementUsage::Color),
            11 => Ok(ElementUsage::Fog),
            12 => Ok(ElementUsage::Depth),
            13 => Ok(ElementUsage::Sample),
            _ => Err(DecodeError::UnknownElementUsage(b)),
        }
    }
}

/// One attribute of a data-driven vertex schema.
#[derive(Debug, Clone, Copy, PartialEq, Eq, Structural, Hash)]
pub struct VertexElement {
    pub stream: u16,
    pub offset: u16,
    pub format: ElementFormat,
    pub method: ElementMethod,
    pub usage: ElementUsage,
    pub usage_index: u8,
}

pub open spec fn sp_vertex_element(d: Seq<u8>, p: int) -> Option<(VertexElement, int)> {
    match sp_u16le(d, p) {
        None => None,
        Some((stream, p1)) => match sp_u16le(d, p1) {
            None => None,
            Some((offset, p2)) => match sp_u8(d, p2) {
                None => None,
                Some((fb, p3)) => match sp_element_format_of(fb) {
                    None => None,
                    Some(format) => match sp_u8(d, p3) {
                        None => None,
                        Some((mb, p4)) => match sp_element_method_of(mb) {
                            None => None,
                            Some(method) => match sp_u8(d, p4) {
                                None => None,
                                Some((ub, p5)) => match sp_element_usage_of(ub) {
                                    None => None,
                                    Some(usage) => match sp_u8(d, p5) {
                                        None => None,
                                        Some((usage_index, p6)) => Some(
                                            (
                                                VertexElement {
                                                    stream,
                                                    offset,
                                                    format,
                                                    method,
                                                    usage,
                                                    usage_index,
                                                },
                                                p6,
                                            ),
                                        ),
                                    },
                                },
                            },
                        },
                    },
                },
            },
        },
    }
}

impl VertexElement {
    pub fn read(rd: &mut Reader) -> (r: Result<VertexElement, DecodeError>)
        requires
            old(rd).wf(),
        ensures
            final(rd).wf(),
            final(rd).data@ == old(rd).data@,
            match r {
                Ok(v) => sp_vertex_element(old(rd).data@, old(rd).pos as int) == Some(
                    (v, final(rd).pos as int),
                ),
                Err(_) => sp_vertex_element(old(rd).data@, old(rd).pos as int) is None,
            },
    {
        let stream = match rd.read_u16le() {
            Ok(v) => v,
            Err(e) => {
                return Err(e);
            },
        };
        let offset = match rd.read_u16le() {
            Ok(v) => v,
            Err(e) => {
                return Err(e);
            },
        };
        let format = match ElementFormat::read(rd) {
            Ok(v) => v,
            Err(e) => {
                return Err(e);
            },
        };
        let method = match ElementMethod::read(rd) {
            Ok(v) => v,
            Err(e) => {
                return Err(e);
            },
        };
        let usage = match ElementUsage::read(rd) {
            Ok(v) => v,
            Err(e) => {
                return Err(e);
            },
        };
        let usage_index = match rd.read_u8() {
            Ok(v) => v,
            Err(e) => {
                return Err(e);
            },
        };
        Ok(VertexElement { stream, offset, format, method, usage, usage_index })
    }

    /// A short tag for diagnostics, naming the element's format and usage.
    pub fn debug_string(&self) -> String {
        let f = match self.format {
            ElementFormat::Single => "Single",
            ElementFormat::Vector2 => "Vector2",
            ElementFormat::Vector3 => "Vector3",
            ElementFormat::Vector4 => "Vector4",
            ElementFormat::Color => "Color",
            ElementFormat::Byte4 => "Byte4",
            ElementFormat::Short2 => "Short2",
            ElementFormat::Short4 => "Short4",
            ElementFormat::Rgba32 => "Rgba32",
            ElementFormat::NormalizedShort2 => "NormalizedShort2",
            ElementFormat::NormalizedShort4 => "NormalizedShort4",
            ElementFormat::Rgb32 => "Rgb32",
            ElementFormat::Rgba64 => "Rgba64",
            ElementFormat::UInt40 => "UInt40",
            ElementFormat::Normalized40 => "Normalized40",
            ElementFormat::HalfVector2 => "HalfVector2",
            ElementFormat::HalfVector4 => "HalfVector4",
        };
        let u = match self.usage {
            ElementUsage::Position => "Position",
            ElementUsage::BlendWeight => "BlendWeight",
            ElementUsage::BlendIndices => "BlendIndices",
            ElementUsage::Normal => "Normal",
            ElementUsage::PointSize => "PointSize",
            ElementUsage::TextureCoordinate => "TextureCoordinate",
            ElementUsage::Tangent => "Tangent",
            ElementUsage::Binormal => "Binormal",
            ElementUsage::TessellateFactor => "TessellateFactor",
            ElementUsage::Color => "Color",
            ElementUsage::Fog => "Fog",
            ElementUsage::Depth => "Depth",
            ElementUsage::Sample => "Sample",
        };
        let mut s = f.to_owned();
        s.append("-");
        s.append(u);
        s
    }
}

/// Elements of `n` consecutive vertex-element records.
pub open spec fn sp_vertex_elements(d: Seq<u8>, p: int, n: nat) -> Option<(Seq<VertexElement>, int)>
    decreases n,
{
    if n == 0 {
        Some((Seq::empty(), p))
    } else {
        match sp_vertex_element(d, p) {
            None => None,
            Some((v, p1)) => match sp_vertex_elements(d, p1, (n - 1) as nat) {
                None => None,
                Some((vs, p2)) => Some((Seq::empty().push(v) + vs, p2)),
            },
        }
    }
}

/// An ordered vertex schema: the count-prefixed element list of the format.
#[derive(Debug, Clone, PartialEq, Eq, Hash)]
pub struct VertexDeclaration {
    pub elements: Vec<VertexElement>,
}

pub struct VertexDeclarationV {
    pub elements: Seq<VertexElement>,
}

impl View for VertexDeclaration {
    type V = VertexDeclarationV;

    open spec fn view(&self) -> VertexDeclarationV {
        VertexDeclarationV { elements: self.elements@ }
    }
}

pub open spec fn sp_vertex_decl(d: Seq<u8>, p: int) -> Option<(VertexDeclarationV, int)> {
    match sp_u32le(d, p) {
        None => None,
        Some((n, p1)) => match sp_vertex_elements(d, p1, n as nat) {
            None => None,
            Some((vs, p2)) => Some((VertexDeclarationV { elements: vs }, p2)),
        },
    }
}

/// Largest end offset over the elements: what one vertex occupies.
pub open spec fn sp_stride(es: Seq<VertexElement>) -> int
    decreases es.len(),
{
    if es.len() == 0 {
        0
    } else {
        let rest = sp_stride(es.drop_last());
        let this = es.last().offset + es.last().format.sp_size();
        if this > rest {
            this
        } else {
            rest
        }
    }
}

impl VertexDeclaration {
    pub fn read(rd: &mut Reader) -> (r: Result<VertexDeclaration, DecodeError>)
        requires
            old(rd).wf(),
        ensures
            final(rd).wf(),
            final(rd).data@ == old(rd).data@,
            match r {
                Ok(v) => sp_vertex_decl(old(rd).data@, old(rd).pos as int) == Some(
                    (v@, final(rd).pos as int),
                ) && final(rd).pos >= old(rd).pos,
                Err(_) => sp_vertex_decl(old(rd).data@, old(rd).pos as int) is None,
            },
    {
        let ghost d = old(rd).data@;
        let ghost p0 = old(rd).pos as int;
        let n = match rd.read_u32le() {
            Ok(v) => v,
            Err(e) => {
                return Err(e);
            },
        };
        let ghost p1 = rd.pos as int;
        let mut elements: Vec<VertexElement> = Vec::new();
        let mut i: u32 = 0;
        while i < n
            invariant
                rd.wf(),
                rd.data@ == d,
                d == old(rd).data@,
                p0 == old(rd).pos,
                sp_u32le(d, p0) == Some((n, p1)),
                p0 < p1 <= rd.pos,
                i <= n,
                elements@.len() == i,
                sp_vertex_elements(d, p1, n as nat) == match sp_vertex_elements(
                    d,
                    rd.pos as int,
                    (n - i) as nat,
                ) {
                    None => None::<(Seq<VertexElement>, int)>,
                    Some((vs, pe)) => Some((elements@ + vs, pe)),
                },
            decreases n - i,
        {
            let el = match VertexElement::read(rd) {
                Ok(v) => v,
                Err(e) => {
                    return Err(e);
                },
            };
            proof {
                match sp_vertex_elements(d, rd.pos as int, (n - i - 1) as nat) {
                    Some((vs, pe)) => {
                        assert(elements@.push(el) + vs =~= elements@ + (Seq::empty().push(el)
                            + vs));
                    },
                    None => {},
                }
            }
            elements.push(el);
            i = i + 1;
        }
        proof {
            assert(elements@ + Seq::<VertexElement>::empty() =~= elements@);
        }
        Ok(VertexDeclaration { elements })
    }

    /// Derived vertex stride: the largest `offset + size` over the
    /// elements. Every element must be of a format the library sizes, as in
    /// the supported content.
    pub fn stride(&self) -> (r: usize)
        requires
            forall|i: int|
                0 <= i < self.elements@.len() ==> (#[trigger] self.elements@[i]).format.sp_sized(),
        ensures
            r == sp_stride(self.elements@),
    {
        let mut best: usize = 0;
        let n: usize = self.elements.len();
        let mut i: usize = 0;
        while i < n
            invariant
                i <= n,
                n == self.elements@.len(),
                forall|j: int|
                    0 <= j < n ==> (#[trigger] self.elements@[j]).format.sp_sized(),
                best == sp_stride(self.elements@.take(i as int)),
                best <= 0xffff + 16,
            decreases n - i,
        {
            let el = &self.elements[i];
            let end: usize = el.offset as usize + el.format.size();
            if end > best {
                best = end;
            }
            proof {
                assert(self.elements@.take(i + 1).drop_last() =~= self.elements@.take(i as int));
                assert(self.elements@.take(i + 1).last() == self.elements@[i as int]);
            }
            i = i + 1;
        }
        proof {
            assert(self.elements@.take(n as int) =~= self.elements@);
        }
        best
    }
}

} // verus!

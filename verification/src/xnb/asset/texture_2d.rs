use vstd::prelude::*;

use crate::err::DecodeError;
use crate::reader::{sp_bytes, sp_u32le, Reader};

verus! {

/// Pixel format of a texture: packed 8-bit channels, or one of two
/// block-compressed encodings.
#[derive(Debug, Clone, Copy, PartialEq, Eq, Structural)]
pub enum PixelFormat {
    Color,
    Bc1,
    Bc3,
}

pub open spec fn sp_pixel_format_of(code: u32) -> Option<PixelFormat> {
    if code == 1 {
        Some(PixelFormat::Color)
    } else if code == 28 {
        Some(PixelFormat::Bc1)
    } else if code == 32 {
        Some(PixelFormat::Bc3)
    } else {
        None
    }
}

impl PixelFormat {
    /// Width and height of one compression block, in pixels.
    pub fn block_dim(self) -> (r: u32)
        ensures
            r == self.sp_block_dim(),
    {
        match self {
            PixelFormat::Color => 1,
            PixelFormat::Bc1 => 4,
            PixelFormat::Bc3 => 4,
        }
    }

    pub open spec fn sp_block_dim(self) -> int {
        match self {
            PixelFormat::Color => 1,
            PixelFormat::Bc1 => 4,
            PixelFormat::Bc3 => 4,
        }
    }

    /// Bytes of one block: one packed pixel, or one compressed block.
    pub fn block_size(self) -> (r: u32)
        ensures
            r == self.sp_block_size(),
    {
        match self {
            PixelFormat::Color => 4,
            PixelFormat::Bc1 => 8,
            PixelFormat::Bc3 => 8,
        }
    }

    pub open spec fn sp_block_size(self) -> int {
        match self {
            PixelFormat::Color => 4,
            PixelFormat::Bc1 => 8,
            PixelFormat::Bc3 => 8,
        }
    }
}

/// A two-dimensional texture: pixel format, base dimensions, and the raw
/// bytes of each mip level.
#[derive(Debug, Clone, PartialEq, Eq)]
pub struct Texture2D {
    pub format: PixelFormat,
    pub width: u32,
    pub height: u32,
    pub mips: Vec<Vec<u8>>,
}

pub struct Texture2DV {
    pub format: PixelFormat,
    pub width: u32,
    pub height: u32,
    pub mips: Seq<Seq<u8>>,
}

impl View for Texture2D {
    type V = Texture2DV;

    open spec fn view(&self) -> Texture2DV {
        Texture2DV {
            format: self.format,
            width: self.width,
            height: self.height,
            mips: self.mips@.map_values(|m: Vec<u8>| m@),
        }
    }
}

/// `n` size-prefixed mip blocks.
pub open spec fn sp_mips(d: Seq<u8>, p: int, n: nat) -> Option<(Seq<Seq<u8>>, int)>
    decreases n,
{
    if n == 0 {
        Some((Seq::empty(), p))
    } else {
        match sp_u32le(d, p) {
            None => None,
            Some((size, p1)) => match sp_bytes(d, p1, size as int) {
                None => None,
                Some((bs, p2)) => match sp_mips(d, p2, (n - 1) as nat) {
                    None => None,
                    Some((ms, p3)) => Some((Seq::empty().push(bs) + ms, p3)),
                },
            },
        }
    }
}

/// Reads `n` mip blocks; shared by the two texture decoders.
pub fn read_mips(rd: &mut Reader, n: u32) -> (r: Result<Vec<Vec<u8>>, DecodeError>)
    requires
        old(rd).wf(),
    ensures
        final(rd).wf(),
        final(rd).data@ == old(rd).data@,
        r is Ok ==> final(rd).pos >= old(rd).pos,
        match r {
            Ok(v) => sp_mips(old(rd).data@, old(rd).pos as int, n as nat) == Some(
                (v@.map_values(|m: Vec<u8>| m@), final(rd).pos as int),
            ),
            Err(_) => sp_mips(old(rd).data@, old(rd).pos as int, n as nat) is None,
        },
{
    let ghost d = old(rd).data@;
    let ghost p0 = old(rd).pos as int;
    let mut mips: Vec<Vec<u8>> = Vec::new();
    let mut i: u32 = 0;
    while i < n
        invariant
            rd.wf(),
            rd.data@ == d,
            d == old(rd).data@,
            p0 == old(rd).pos,
            p0 <= rd.pos,
            i <= n,
            mips@.len() == i,
            sp_mips(d, p0, n as nat) == match sp_mips(d, rd.pos as int, (n - i) as nat) {
                None => None::<(Seq<Seq<u8>>, int)>,
                Some((ms, pe)) => Some((mips@.map_values(|m: Vec<u8>| m@) + ms, pe)),
            },
        decreases n - i,
    {
        let size = match rd.read_u32le() {
            Ok(v) => v,
            Err(e) => {
                return Err(e);
            },
        };
        let mip = match rd.read_bytes(size as usize) {
            Ok(v) => v,
            Err(e) => {
                return Err(e);
            },
        };
        proof {
            match sp_mips(d, rd.pos as int, (n - i - 1) as nat) {
                Some((ms, pe)) => {
                    assert(mips@.push(mip).map_values(|m: Vec<u8>| m@) + ms =~= mips@.map_values(
                        |m: Vec<u8>| m@,
                    ) + (Seq::empty().push(mip@) + ms));
                },
                None => {},
            }
        }
        mips.push(mip);
        i = i + 1;
    }
    proof {
        assert(mips@.map_values(|m: Vec<u8>| m@) + Seq::<Seq<u8>>::empty() =~= mips@.map_values(
            |m: Vec<u8>| m@,
        ));
    }
    Ok(mips)
}

pub open spec fn sp_texture2d(d: Seq<u8>, p: int) -> Option<(Texture2DV, int)> {
    match sp_u32le(d, p) {
        None => None,
        Some((code, p1)) => match sp_pixel_format_of(code) {
            None => None,
            Some(format) => match sp_u32le(d, p1) {
                None => None,
                Some((width, p2)) => match sp_u32le(d, p2) {
                    None => None,
                    Some((height, p3)) => match sp_u32le(d, p3) {
                        None => None,
                        Some((mip_count, p4)) => match sp_mips(d, p4, mip_count as nat) {
                            None => None,
                            Some((mips, p5)) => Some(
                                (Texture2DV { format, width, height, mips }, p5),
                            ),
                        },
                    },
                },
            },
        },
    }
}

/// Ceiling division over non-negative spec integers.
pub open spec fn sp_div_ceil(a: int, b: int) -> int {
    (a + b - 1) / b
}

/// Powers of two.
pub open spec fn sp_pow2(n: nat) -> int
    decreases n,
{
    if n == 0 {
        1
    } else {
        2 * sp_pow2((n - 1) as nat)
    }
}

/// A mip's dimension: the base dimension halved once per level.
pub open spec fn sp_mip_dim(base: u32, mip: nat) -> int {
    base as int / sp_pow2(mip)
}

/// Blocks along one axis of a mip: the halved dimension in blocks, rounded
/// up, and clamped to at least one block.
pub open spec fn sp_mip_blocks(base: u32, mip: nat, dim: int) -> int {
    let b = sp_div_ceil(sp_mip_dim(base, mip), dim);
    if b < 1 {
        1
    } else {
        b
    }
}

pub proof fn lemma_pow2_pos(n: nat)
    ensures
        sp_pow2(n) >= 1,
    decreases n,
{
    if n > 0 {
        lemma_pow2_pos((n - 1) as nat);
    }
}

/// Divides `v` by two, `mip` times.
fn halve(v: u32, mip: usize) -> (r: u32)
    ensures
        r == sp_mip_dim(v, mip as nat),
{
    let mut w: u32 = v;
    let mut k: usize = 0;
    while k < mip
        invariant
            k <= mip,
            w == sp_mip_dim(v, k as nat),
        decreases mip - k,
    {
        proof {
            lemma_pow2_pos(k as nat);
            vstd::arithmetic::div_mod::lemma_div_denominator(v as int, sp_pow2(k as nat), 2);
            assert(sp_pow2((k + 1) as nat) == sp_pow2(k as nat) * 2);
        }
        w = w / 2;
        k = k + 1;
    }
    w
}

impl Texture2D {
    pub fn read(rd: &mut Reader) -> (r: Result<Texture2D, DecodeError>)
        requires
            old(rd).wf(),
        ensures
            final(rd).wf(),
            final(rd).data@ == old(rd).data@,
            match r {
                Ok(v) => sp_texture2d(old(rd).data@, old(rd).pos as int) == Some(
                    (v@, final(rd).pos as int),
                ) && final(rd).pos >= old(rd).pos,
                Err(_) => sp_texture2d(old(rd).data@, old(rd).pos as int) is None,
            },
    {
        let code = match rd.read_u32le() {
            Ok(v) => v,
            Err(e) => {
                return Err(e);
            },
        };
        let format = if code == 1 {
            PixelFormat::Color
        } else if code == 28 {
            PixelFormat::Bc1
        } else if code == 32 {
            PixelFormat::Bc3
        } else {
            return Err(DecodeError::UnknownPixelFormat(code));
        };
        let width = match rd.read_u32le() {
            Ok(v) => v,
            Err(e) => {
                return Err(e);
            },
        };
        let height = match rd.read_u32le() {
            Ok(v) => v,
            Err(e) => {
                return Err(e);
            },
        };
        let mip_count = match rd.read_u32le() {
            Ok(v) => v,
            Err(e) => {
                return Err(e);
            },
        };
        let mips = match read_mips(rd, mip_count) {
            Ok(v) => v,
            Err(e) => {
                return Err(e);
            },
        };
        Ok(Texture2D { format, width, height, mips })
    }

    /// Bytes of one row of blocks in the given mip: the mip's width in
    /// blocks, clamped to at least one block, times the block size. The
    /// mip index stays below 32 and the result must fit the 32-bit type;
    /// both hold of any real texture.
    pub fn bytes_per_row(&self, mip_index: usize) -> (r: u32)
        requires
            mip_index < 32,
            sp_mip_blocks(
                self.width,
                mip_index as nat,
                self.format.sp_block_dim(),
            ) * self.format.sp_block_size() <= u32::MAX,
        ensures
            r == sp_mip_blocks(
                self.width,
                mip_index as nat,
                self.format.sp_block_dim(),
            ) * self.format.sp_block_size(),
    {
        let block_dim = self.format.block_dim();
        let block_size = self.format.block_size();
        let mip_width = halve(self.width, mip_index);
        let mut blocks_x: u64 = (mip_width as u64 + block_dim as u64 - 1) / block_dim as u64;
        if blocks_x < 1 {
            blocks_x = 1;
        }
        let bytes: u64 = blocks_x * block_size as u64;
        proof {
            assert(bytes == sp_mip_blocks(
                self.width,
                mip_index as nat,
                self.format.sp_block_dim(),
            ) * self.format.sp_block_size());
        }
        bytes as u32
    }

    /// Rows of blocks in the given mip: the mip's height in blocks,
    /// clamped to at least one block.
    pub fn rows_per_image(&self, mip_index: usize) -> (r: u32)
        requires
            mip_index < 32,
        ensures
            r == sp_mip_blocks(self.height, mip_index as nat, self.format.sp_block_dim()),
    {
        let block_dim = self.format.block_dim();
        let mip_height = halve(self.height, mip_index);
        let mut blocks_y: u64 = (mip_height as u64 + block_dim as u64 - 1) / block_dim as u64;
        if blocks_y < 1 {
            blocks_y = 1;
        }
        blocks_y as u32
    }

    /// Decode one mip to packed blue-green-red-alpha pixels.
    pub fn decode(&self, mip_index: usize) -> (r: Result<Vec<u8>, DecodeError>)
        requires
            mip_index < self.mips@.len(),
        ensures
            self.format == PixelFormat::Color ==> (r matches Ok(v) && v@
                == self.mips@[mip_index as int]@),
            self.format != PixelFormat::Color ==> match r {
                Ok(v) => self.width > 0 && self.height > 0 && 4 * self.width as int
                    * self.height as int <= usize::MAX && v@ == sp_bcn_decoded(
                    self.format == PixelFormat::Bc3,
                    self.mips@[mip_index as int]@,
                    self.width as int,
                    self.height as int,
                ) && v@.len() == 4 * self.width * self.height,
                Err(e) => !(self.width > 0 && self.height > 0) || (4 * self.width as int
                    * self.height as int > usize::MAX && e == DecodeError::TextureTooLarge),
            },
    {
        decode_pixels(&self.mips[mip_index], self.width as usize, self.height as usize, self.format)
    }
}

/// What the block-compression decoder produces for the given source, image
/// size, and encoding (`true` for the two-endpoint interpolated-alpha
/// encoding), in blue-green-red-alpha order.
pub uninterp spec fn sp_bcn_decoded(bc3: bool, source: Seq<u8>, width: int, height: int) -> Seq<
    u8,
>;

/// Relies on `bcndecode::decode`: for these two encodings and this output
/// order it fails exactly when a dimension is zero, and on success returns
/// four bytes per pixel, a function of the arguments alone. The output
/// buffer's byte count must fit the machine word, or the decoder's own
/// size arithmetic overflows.
#[verifier::external_body]
fn bcn_decode(source: &Vec<u8>, width: usize, height: usize, bc3: bool) -> (r: Result<
    Vec<u8>,
    DecodeError,
>)
    requires
        4 * width as int * height as int <= usize::MAX,
    ensures
        r matches Ok(v) ==> v@ == sp_bcn_decoded(bc3, source@, width as int, height as int)
            && v@.len() == 4 * width * height,
        r is Ok <==> (width > 0 && height > 0),
{
    let encoding = if bc3 {
        bcndecode::BcnEncoding::Bc3
    } else {
        bcndecode::BcnEncoding::Bc1
    };
    match bcndecode::decode(source, width, height, encoding, bcndecode::BcnDecoderFormat::BGRA) {
        Ok(v) => Ok(v),
        Err(_) => Err(DecodeError::DecompressFailed),
    }
}

/// Expand a mip's raw bytes to packed blue-green-red-alpha pixels: packed
/// formats pass through unchanged, block-compressed ones go through the
/// block decoder. A declared size whose pixel buffer would not fit the
/// machine word is rejected rather than handed to the decoder.
pub fn decode_pixels(source: &Vec<u8>, width: usize, height: usize, format: PixelFormat) -> (r:
    Result<Vec<u8>, DecodeError>)
    ensures
        format == PixelFormat::Color ==> (r matches Ok(v) && v@ == source@),
        format != PixelFormat::Color ==> match r {
            Ok(v) => width > 0 && height > 0 && 4 * width as int * height as int <= usize::MAX
                && v@ == sp_bcn_decoded(
                format == PixelFormat::Bc3,
                source@,
                width as int,
                height as int,
            ) && v@.len() == 4 * width * height,
            Err(e) => !(width > 0 && height > 0) || (4 * width as int * height as int > usize::MAX
                && e == DecodeError::TextureTooLarge),
        },
{
    if format != PixelFormat::Color {
        if width > 0 && height > 0 {
            proof {
                assert(width as int * height as int <= u128::MAX) by (nonlinear_arith)
                    requires
                        width as int <= 0xffffffffffffffffu64 && height as int
                            <= 0xffffffffffffffffu64,
                ;
            }
            let wh: u128 = (width as u128) * (height as u128);
            if wh > usize::MAX as u128 / 4 {
                proof {
                    assert(4 * width as int * height as int > usize::MAX as int)
                        by (nonlinear_arith)
                        requires
                            width as int * height as int > usize::MAX as int / 4,
                    ;
                }
                return Err(DecodeError::TextureTooLarge);
            }
            proof {
                assert(4 * (usize::MAX as int / 4) <= usize::MAX as int);
                assert(4 * width as int * height as int <= usize::MAX as int)
                    by (nonlinear_arith)
                    requires
                        width as int * height as int <= usize::MAX as int / 4,
                ;
            }
        }
    }
    match format {
        PixelFormat::Color => {
            let mut out: Vec<u8> = Vec::new();
            let n: usize = source.len();
            let mut i: usize = 0;
            while i < n
                invariant
                    i <= n,
                    n == source@.len(),
                    out@ =~= source@.take(i as int),
                decreases n - i,
            {
                out.push(source[i]);
                i = i + 1;
            }
            proof {
                assert(out@ =~= source@);
            }
            Ok(out)
        },
        PixelFormat::Bc1 => bcn_decode(source, width, height, false),
        PixelFormat::Bc3 => bcn_decode(source, width, height, true),
    }
}

/// Four-byte groups with the first and third channel swapped; trailing
/// bytes that do not fill a group are dropped.
pub open spec fn sp_swap_rb(s: Seq<u8>) -> Seq<u8>
    decreases s.len(),
{
    if s.len() < 4 {
        Seq::empty()
    } else {
        seq![s[2], s[1], s[0], s[3]] + sp_swap_rb(s.skip(4))
    }
}

/// Convert packed blue-green-red-alpha pixels to red-green-blue-alpha by
/// swapping the first and third byte of each four-byte group.
pub fn bgra8_to_rgba8(bgra8: &Vec<u8>) -> (r: Vec<u8>)
    ensures
        r@ == sp_swap_rb(bgra8@),
{
    let s = bgra8;
    let n: usize = s.len();
    let mut out: Vec<u8> = Vec::new();
    let mut i: usize = 0;
    proof {
        assert(s@.skip(0) =~= s@);
    }
    while n - i >= 4
        invariant
            i <= n,
            n == s@.len(),
            i % 4 == 0,
            sp_swap_rb(s@) == out@ + sp_swap_rb(s@.skip(i as int)),
        decreases n - i,
    {
        let b = s[i];
        let g = s[i + 1];
        let rr = s[i + 2];
        let a = s[i + 3];
        proof {
            let t = s@.skip(i as int);
            assert(t[0] == s@[i as int] && t[1] == s@[i + 1] && t[2] == s@[i + 2] && t[3] == s@[i
                + 3]);
            assert(t.skip(4) =~= s@.skip(i + 4));
            assert(out@ + (seq![t[2], t[1], t[0], t[3]] + sp_swap_rb(s@.skip(i + 4))) =~= (out@
                + seq![t[2], t[1], t[0], t[3]]) + sp_swap_rb(s@.skip(i + 4)));
            assert(out@ + seq![t[2], t[1], t[0], t[3]] =~= out@.push(rr).push(g).push(b).push(a));
        }
        out.push(rr);
        out.push(g);
        out.push(b);
        out.push(a);
        i = i + 4;
    }
    proof {
        assert(sp_swap_rb(s@.skip(i as int)) =~= Seq::<u8>::empty());
        assert(out@ + Seq::<u8>::empty() =~= out@);
    }
    out
}

} // verus!

use vstd::prelude::*;

pub mod asset;

use crate::err::DecodeError;
use crate::reader::{sp_bytes, sp_i32le, sp_string, sp_u16be, sp_u32le, sp_u8, sp_varint, Reader};
use crate::xnb::asset::{sp_asset, sp_assets, sp_names, read_assets, AssetV, XnbAsset};

verus! {

/// Platform tag of a container.
#[derive(Debug, Clone, Copy, PartialEq, Eq, Structural)]
pub enum Platform {
    Windows,
    WindowsPhone,
    Xbox360,
}

/// Format version of a container. Only `Xna31` can be decoded; `Xna40` is
/// recognized and rejected.
#[derive(Debug, Clone, Copy, PartialEq, Eq, Structural)]
pub enum Version {
    Xna31,
    Xna40,
}

/// The fixed-size container header.
#[derive(Debug, Clone, Copy, PartialEq, Eq, Structural)]
pub struct Header {
    pub platform: Platform,
    pub version: Version,
    pub hi_def: bool,
    pub compressed: bool,
    pub compressed_size: u32,
    pub uncompressed_size: u32,
}

/// A container: its header and the raw (possibly compressed) payload.
#[derive(Debug)]
pub struct Xnb {
    pub header: Header,
    pub data: Vec<u8>,
}

/// Header and payload that the container bytes denote: a three-byte
/// signature, a platform code, a version code, a flag byte (bit 0
/// high-definition, bit 7 compressed), the little-endian total size, the
/// little-endian uncompressed size when compressed, and then exactly
/// `compressed_size` minus the header size (14 when compressed, 10 when not)
/// bytes of payload.
pub open spec fn sp_xnb(d: Seq<u8>) -> Option<(Header, Seq<u8>)> {
    if d.len() < 3 || !(d[0] == 88 && d[1] == 78 && d[2] == 66) {
        None
    } else {
        match sp_u8(d, 3) {
            None => None,
            Some((pb, _)) => {
                if !(pb == 119 || pb == 109 || pb == 120) {
                    None
                } else {
                    let platform = if pb == 119 {
                        Platform::Windows
                    } else if pb == 109 {
                        Platform::WindowsPhone
                    } else {
                        Platform::Xbox360
                    };
                    match sp_u8(d, 4) {
                        None => None,
                        Some((vb, _)) => {
                            if vb != 4 {
                                None
                            } else {
                                match sp_u8(d, 5) {
                                    None => None,
                                    Some((flags, _)) => {
                                        let hi_def = flags & 0x01 != 0;
                                        let compressed = flags & 0x80 != 0;
                                        match sp_u32le(d, 6) {
                                            None => None,
                                            Some((csize, _)) => {
                                                let hsize: int = if compressed {
                                                    14
                                                } else {
                                                    10
                                                };
                                                if compressed {
                                                    match sp_u32le(d, 10) {
                                                        None => None,
                                                        Some((usize_, _)) => {
                                                            if csize < hsize || d.len()
                                                                < csize {
                                                                None
                                                            } else {
                                                                Some(
                                                                    (
                                                                        Header {
                                                                            platform,
                                                                            version: Version::Xna31,
                                                                            hi_def,
                                                                            compressed,
                                                                            compressed_size: csize,
                                                                            uncompressed_size: usize_,
                                                                        },
                                                                        d.subrange(
                                                                            hsize,
                                                                            csize as int,
                                                                        ),
                                                                    ),
                                                                )
                                                            }
                                                        },
                                                    }
                                                } else {
                                                    if csize < hsize || d.len() < csize {
                                                        None
                                                    } else {
                                                        Some(
                                                            (
                                                                Header {
                                                                    platform,
                                                                    version: Version::Xna31,
                                                                    hi_def,
                                                                    compressed,
                                                                    compressed_size: csize,
                                                                    uncompressed_size: 0,
                                                                },
                                                                d.subrange(hsize, csize as int),
                                                            ),
                                                        )
                                                    }
                                                }
                                            },
                                        }
                                    },
                                }
                            }
                        },
                    }
                }
            },
        }
    }
}

/// The error a failed header decode reports, mirroring the checks of
/// `sp_xnb` in order.
pub open spec fn sp_xnb_err(d: Seq<u8>) -> DecodeError {
    if d.len() < 3 {
        DecodeError::Truncated
    } else if !(d[0] == 88 && d[1] == 78 && d[2] == 66) {
        DecodeError::BadMagic
    } else if d.len() < 4 {
        DecodeError::Truncated
    } else if !(d[3] == 119 || d[3] == 109 || d[3] == 120) {
        DecodeError::UnknownPlatform(d[3])
    } else if d.len() < 5 {
        DecodeError::Truncated
    } else if d[4] == 5 {
        DecodeError::UnsupportedVersion
    } else if d[4] != 4 {
        DecodeError::UnknownVersion(d[4])
    } else {
        DecodeError::Truncated
    }
}

impl Xnb {
    /// Decode the container header and slice out the payload. The whole
    /// byte buffer of the file is given; bytes past the declared total size
    /// are ignored.
    pub fn read(bytes: &[u8]) -> (r: Result<Xnb, DecodeError>)
        ensures
            match r {
                Ok(x) => sp_xnb(bytes@) == Some((x.header, x.data@)),
                Err(e) => sp_xnb(bytes@) is None && e == sp_xnb_err(bytes@),
            },
    {
        let mut rd = Reader::new(bytes);
        if bytes.len() < 3 {
            return Err(DecodeError::Truncated);
        }
        let m0 = bytes[0];
        let m1 = bytes[1];
        let m2 = bytes[2];
        if !(m0 == 88 && m1 == 78 && m2 == 66) {
            return Err(DecodeError::BadMagic);
        }
        if bytes.len() < 4 {
            return Err(DecodeError::Truncated);
        }
        let pb = bytes[3];
        let platform = if pb == 119 {
            Platform::Windows
        } else if pb == 109 {
            Platform::WindowsPhone
        } else if pb == 120 {
            Platform::Xbox360
        } else {
            return Err(DecodeError::UnknownPlatform(pb));
        };
        if bytes.len() < 5 {
            return Err(DecodeError::Truncated);
        }
        let vb = bytes[4];
        if vb == 5 {
            return Err(DecodeError::UnsupportedVersion);
        }
        if vb != 4 {
            return Err(DecodeError::UnknownVersion(vb));
        }
        if bytes.len() < 6 {
            return Err(DecodeError::Truncated);
        }
        let flags = bytes[5];
        let hi_def = flags & 0x01 != 0;
        let compressed = flags & 0x80 != 0;
        rd.pos = 6;
        let csize = match rd.read_u32le() {
            Ok(v) => v,
            Err(_) => {
                return Err(DecodeError::Truncated);
            },
        };
        let usize_ = if compressed {
            match rd.read_u32le() {
                Ok(v) => v,
                Err(_) => {
                    return Err(DecodeError::Truncated);
                },
            }
        } else {
            0
        };
        let hsize: usize = if compressed {
            14
        } else {
            10
        };
        if csize < hsize as u32 {
            return Err(DecodeError::Truncated);
        }
        if (bytes.len() as u64) < csize as u64 {
            return Err(DecodeError::Truncated);
        }
        rd.pos = hsize;
        let payload = match rd.read_bytes(csize as usize - hsize) {
            Ok(v) => v,
            Err(_) => {
                return Err(DecodeError::Truncated);
            },
        };
        let header = Header {
            platform,
            version: Version::Xna31,
            hi_def,
            compressed,
            compressed_size: csize,
            uncompressed_size: usize_,
        };
        Ok(Xnb { header, data: payload })
    }
}

// Compression framing: the payload is a sequence of blocks. A leading 0xFF
// byte announces an explicit big-endian frame size and block size; any other
// leading byte is the high byte of a plain big-endian block size with the
// default frame size of 0x8000. A zero block or frame size stops the walk.

/// The frames of a compressed payload from position `p` on: each entry is
/// the declared uncompressed frame size and the compressed block bytes.
/// `None` means the framing itself is malformed (a header or block is cut
/// short).
pub open spec fn sp_frames(d: Seq<u8>, p: int) -> Option<Seq<(u16, Seq<u8>)>>
    decreases d.len() - p,
{
    if !(0 <= p < d.len()) {
        Some(Seq::empty())
    } else {
        match sp_u8(d, p) {
            None => None,
            Some((b, p1)) => {
                let hdr = if b == 0xff {
                    match sp_u16be(d, p1) {
                        None => None,
                        Some((fsz, p2)) => match sp_u16be(d, p2) {
                            None => None,
                            Some((bsz, p3)) => Some((fsz, bsz, p3)),
                        },
                    }
                } else {
                    match sp_u16be(d, p) {
                        None => None,
                        Some((bsz, p2)) => Some((0x8000u16, bsz, p2)),
                    }
                };
                match hdr {
                    None => None,
                    Some((fsz, bsz, p2)) => {
                        if bsz == 0 || fsz == 0 {
                            Some(Seq::empty())
                        } else {
                            match sp_bytes(d, p2, bsz as int) {
                                None => None,
                                Some((blk, p3)) => {
                                    if p < p3 <= d.len() {
                                        match sp_frames(d, p3) {
                                            None => None,
                                            Some(rest) => Some(
                                                Seq::empty().push((fsz, blk)) + rest,
                                            ),
                                        }
                                    } else {
                                        None
                                    }
                                },
                            }
                        }
                    },
                }
            },
        }
    }
}

/// Total declared uncompressed size of a frame sequence.
pub open spec fn sp_frames_total(fs: Seq<(u16, Seq<u8>)>) -> int
    decreases fs.len(),
{
    if fs.len() == 0 {
        0
    } else {
        fs[0].0 + sp_frames_total(fs.drop_first())
    }
}

/// Relies on `lzxd::Lzxd::new`: a fresh sliding-window decompressor with a
/// 64 KB window. It carries dictionary state across blocks of one payload.
#[verifier::external_body]
fn new_lzxd_64k() -> lzxd::Lzxd {
    lzxd::Lzxd::new(lzxd::WindowSize::KB64)
}

#[verifier::external_type_specification]
#[verifier::external_body]
pub struct ExLzxd(lzxd::Lzxd);

/// Relies on `lzxd::Lzxd::decompress_next`: on success the decompressed
/// chunk holds exactly the requested number of bytes. On adversarial
/// block content the decompressor's own window arithmetic relies on
/// release-profile wrapping; a build with overflow checks can abort
/// inside it.
#[verifier::external_body]
fn lzxd_decompress_next(lz: &mut lzxd::Lzxd, chunk: &Vec<u8>, output_len: usize) -> (r: Result<
    Vec<u8>,
    DecodeError,
>)
    ensures
        r matches Ok(v) ==> v@.len() == output_len,
        r matches Err(e) ==> e == DecodeError::DecompressFailed,
{
    match lz.decompress_next(chunk.as_slice(), output_len) {
        Ok(frame) => Ok(frame.to_vec()),
        Err(_) => Err(DecodeError::DecompressFailed),
    }
}

impl Xnb {
    /// Expand the payload. An uncompressed payload is returned unchanged,
    /// byte for byte. A compressed one is walked frame by frame and fed to
    /// one sliding-window decompressor shared across all its blocks; the
    /// output holds exactly the sum of the declared frame sizes.
    pub fn decompress(&self) -> (r: Result<Vec<u8>, DecodeError>)
        ensures
            !self.header.compressed ==> (r matches Ok(v) && v@ == self.data@),
            self.header.compressed ==> match r {
                Ok(v) => sp_frames(self.data@, 0) matches Some(fs) && v@.len()
                    == sp_frames_total(fs),
                Err(e) => sp_frames(self.data@, 0) is None || e == DecodeError::DecompressFailed,
            },
    {
        if !self.header.compressed {
            let mut out: Vec<u8> = Vec::new();
            let n: usize = self.data.len();
            let mut i: usize = 0;
            while i < n
                invariant
                    i <= n,
                    n == self.data@.len(),
                    out@ =~= self.data@.take(i as int),
                decreases n - i,
            {
                out.push(self.data[i]);
                i = i + 1;
            }
            proof {
                assert(out@ =~= self.data@);
            }
            return Ok(out);
        }
        let ghost d = self.data@;
        let mut rd = Reader::new(self.data.as_slice());
        let mut lz = new_lzxd_64k();
        let mut out: Vec<u8> = Vec::new();
        let ghost mut done: Seq<(u16, Seq<u8>)> = Seq::empty();
        loop
            invariant
                self.header.compressed,
                rd.wf(),
                rd.data@ == d,
                d == self.data@,
                out@.len() == sp_frames_total(done),
                sp_frames(d, 0) == match sp_frames(d, rd.pos as int) {
                    None => None::<Seq<(u16, Seq<u8>)>>,
                    Some(rest) => Some(done + rest),
                },
            decreases d.len() - rd.pos,
        {
            if rd.remaining() == 0 {
                proof {
                    assert(sp_frames(d, rd.pos as int) == Some(Seq::<(u16, Seq<u8>)>::empty()));
                    assert(done + Seq::<(u16, Seq<u8>)>::empty() =~= done);
                }
                return Ok(out);
            }
            let ghost p0 = rd.pos as int;
            let b = match rd.read_u8() {
                Ok(v) => v,
                Err(e) => {
                    return Err(e);
                },
            };
            let frame_size: u16;
            let block_size: u16;
            if b == 0xff {
                frame_size = match rd.read_u16be() {
                    Ok(v) => v,
                    Err(e) => {
                        proof {
                            assert(sp_frames(d, p0) is None);
                        }
                        return Err(e);
                    },
                };
                block_size = match rd.read_u16be() {
                    Ok(v) => v,
                    Err(e) => {
                        proof {
                            assert(sp_frames(d, p0) is None);
                        }
                        return Err(e);
                    },
                };
            } else {
                rd.pos = rd.pos - 1;
                proof {
                    assert(rd.pos as int == p0);
                }
                block_size = match rd.read_u16be() {
                    Ok(v) => v,
                    Err(e) => {
                        proof {
                            assert(sp_frames(d, p0) is None);
                        }
                        return Err(e);
                    },
                };
                frame_size = 0x8000;
            }
            if block_size == 0 || frame_size == 0 {
                proof {
                    assert(sp_frames(d, p0) == Some(Seq::<(u16, Seq<u8>)>::empty()));
                    assert(done + Seq::<(u16, Seq<u8>)>::empty() =~= done);
                }
                return Ok(out);
            }
            let block = match rd.read_bytes(block_size as usize) {
                Ok(v) => v,
                Err(e) => {
                    proof {
                        assert(sp_frames(d, p0) is None);
                    }
                    return Err(e);
                },
            };
            let mut frame = match lzxd_decompress_next(&mut lz, &block, frame_size as usize) {
                Ok(v) => v,
                Err(e) => {
                    return Err(e);
                },
            };
            out.append(&mut frame);
            proof {
                let f = (frame_size, block@);
                let old_done = done;
                done = old_done.push(f);
                lemma_frames_total_push(old_done, f);
                assert(sp_u8(d, p0) == Some((b, p0 + 1)));
                assert(sp_frames(d, p0) == match sp_frames(d, rd.pos as int) {
                    None => None::<Seq<(u16, Seq<u8>)>>,
                    Some(rest) => Some(Seq::empty().push(f) + rest),
                });
                if sp_frames(d, rd.pos as int) is Some {
                    let rest = sp_frames(d, rd.pos as int)->0;
                    assert(old_done + (Seq::empty().push(f) + rest) =~= done + rest);
                }
            }
        }
    }
}

proof fn lemma_frames_total_push(fs: Seq<(u16, Seq<u8>)>, f: (u16, Seq<u8>))
    ensures
        sp_frames_total(fs.push(f)) == sp_frames_total(fs) + f.0,
    decreases fs.len(),
{
    if fs.len() == 0 {
        assert(fs.push(f).drop_first() =~= Seq::<(u16, Seq<u8>)>::empty());
        assert(fs.push(f)[0] == f);
        assert(sp_frames_total(fs.push(f)) == f.0 + sp_frames_total(
            Seq::<(u16, Seq<u8>)>::empty(),
        ));
    } else {
        assert(fs.push(f).drop_first() =~= fs.drop_first().push(f));
        assert(fs.push(f)[0] == fs[0]);
        lemma_frames_total_push(fs.drop_first(), f);
        assert(sp_frames_total(fs.push(f)) == fs[0].0 + sp_frames_total(fs.drop_first().push(f)));
    }
}

// ------------------------------------------------------ content stream --

/// One manifest entry: a fully-qualified decoder name (with its assembly,
/// comma-separated) and a version number.
#[derive(Debug, Clone, PartialEq, Eq)]
pub struct TypeReader {
    pub name: String,
    pub version: i32,
}

pub struct TypeReaderV {
    pub name: Seq<char>,
    pub version: i32,
}

impl View for TypeReader {
    type V = TypeReaderV;

    open spec fn view(&self) -> TypeReaderV {
        TypeReaderV { name: self.name@, version: self.version }
    }
}

pub open spec fn sp_type_readers(d: Seq<u8>, p: int, n: nat) -> Option<(Seq<TypeReaderV>, int)>
    decreases n,
{
    if n == 0 {
        Some((Seq::empty(), p))
    } else {
        match sp_string(d, p) {
            None => None,
            Some((name, p1)) => match sp_i32le(d, p1) {
                None => None,
                Some((version, p2)) => match sp_type_readers(d, p2, (n - 1) as nat) {
                    None => None,
                    Some((vs, p3)) => Some(
                        (Seq::empty().push(TypeReaderV { name, version }) + vs, p3),
                    ),
                },
            },
        }
    }
}

fn read_type_readers(rd: &mut Reader, n: u32) -> (r: Result<Vec<TypeReader>, DecodeError>)
    requires
        old(rd).wf(),
    ensures
        final(rd).wf(),
        final(rd).data@ == old(rd).data@,
        r is Ok ==> final(rd).pos >= old(rd).pos,
        match r {
            Ok(v) => sp_type_readers(old(rd).data@, old(rd).pos as int, n as nat) == Some(
                (v@.map_values(|t: TypeReader| t@), final(rd).pos as int),
            ),
            Err(_) => sp_type_readers(old(rd).data@, old(rd).pos as int, n as nat) is None,
        },
{
    let ghost d = old(rd).data@;
    let ghost p0 = old(rd).pos as int;
    let mut out: Vec<TypeReader> = Vec::new();
    let mut i: u32 = 0;
    while i < n
        invariant
            rd.wf(),
            rd.data@ == d,
            d == old(rd).data@,
            p0 == old(rd).pos,
            p0 <= rd.pos,
            i <= n,
            out@.len() == i,
            sp_type_readers(d, p0, n as nat) == match sp_type_readers(
                d,
                rd.pos as int,
                (n - i) as nat,
            ) {
                None => None::<(Seq<TypeReaderV>, int)>,
                Some((vs, pe)) => Some((out@.map_values(|t: TypeReader| t@) + vs, pe)),
            },
        decreases n - i,
    {
        let name = match rd.read_string() {
            Ok(v) => v,
            Err(e) => {
                return Err(e);
            },
        };
        let version = match rd.read_i32le() {
            Ok(v) => v,
            Err(e) => {
                return Err(e);
            },
        };
        let item = TypeReader { name, version };
        proof {
            match sp_type_readers(d, rd.pos as int, (n - i - 1) as nat) {
                Some((vs, pe)) => {
                    assert(out@.push(item).map_values(|t: TypeReader| t@) + vs
                        =~= out@.map_values(|t: TypeReader| t@) + (Seq::empty().push(item@)
                        + vs));
                },
                None => {},
            }
        }
        out.push(item);
        i = i + 1;
    }
    proof {
        assert(out@.map_values(|t: TypeReader| t@) + Seq::<TypeReaderV>::empty()
            =~= out@.map_values(|t: TypeReader| t@));
    }
    Ok(out)
}

/// A decoded content stream: the manifest, the primary asset, and the
/// shared assets.
#[derive(Debug)]
pub struct XnbContent {
    pub type_readers: Vec<TypeReader>,
    pub primary_asset: XnbAsset,
    pub shared_assets: Vec<XnbAsset>,
}

pub struct XnbContentV {
    pub type_readers: Seq<TypeReaderV>,
    pub primary_asset: AssetV,
    pub shared_assets: Seq<AssetV>,
}

impl View for XnbContent {
    type V = XnbContentV;

    open spec fn view(&self) -> XnbContentV {
        XnbContentV {
            type_readers: self.type_readers@.map_values(|t: TypeReader| t@),
            primary_asset: self.primary_asset@,
            shared_assets: self.shared_assets@.map_values(|a: XnbAsset| a@),
        }
    }
}

/// Names of a parsed manifest.
pub open spec fn sp_tr_names(trs: Seq<TypeReaderV>) -> Seq<Seq<char>> {
    trs.map_values(|t: TypeReaderV| t.name)
}

/// The manifest names are the same whether taken before or after viewing
/// the entries.
proof fn lemma_tr_names(trs: Seq<TypeReader>)
    ensures
        sp_tr_names(trs.map_values(|t: TypeReader| t@)) =~= sp_names(trs),
{
}

/// A declared shared-asset count, as the signed loop of the format treats
/// it: the raw 32 bits denote a negative number exactly when the high bit
/// is set, and a negative count runs no iterations.
pub open spec fn sp_shared_count(v: u32) -> nat {
    if v >= 0x8000_0000 {
        0
    } else {
        v as nat
    }
}

/// The asset section of a content stream: a shared-asset count, one
/// primary asset, then that many shared assets.
pub open spec fn sp_content_tail(d: Seq<u8>, p: int, names: Seq<Seq<char>>) -> Option<
    ((AssetV, Seq<AssetV>), int),
> {
    match sp_varint(d, p) {
        None => None,
        Some((sac, p1)) => match sp_asset(d, p1, names) {
            None => None,
            Some((primary, p2)) => match sp_assets(d, p2, names, sp_shared_count(sac)) {
                None => None,
                Some((shared, p3)) => Some(((primary, shared), p3)),
            },
        },
    }
}

/// A decompressed content stream: a counted manifest of type readers, a
/// shared-asset count, one primary asset, then that many shared assets,
/// all decoded through the same polymorphic dispatch.
pub open spec fn sp_content(d: Seq<u8>, p: int) -> Option<(XnbContentV, int)> {
    match sp_varint(d, p) {
        None => None,
        Some((trc, p1)) => match sp_type_readers(d, p1, trc as nat) {
            None => None,
            Some((trs, p2)) => match sp_content_tail(d, p2, sp_tr_names(trs)) {
                None => None,
                Some(((primary, shared), p3)) => Some(
                    (
                        XnbContentV {
                            type_readers: trs,
                            primary_asset: primary,
                            shared_assets: shared,
                        },
                        p3,
                    ),
                ),
            },
        },
    }
}

/// Reads the shared-asset count, the primary asset, and the shared assets.
#[verifier::rlimit(100)]
#[verifier::spinoff_prover]
fn read_content_tail(rd: &mut Reader, type_readers: &[TypeReader]) -> (r: Result<
    (XnbAsset, Vec<XnbAsset>),
    DecodeError,
>)
    requires
        old(rd).wf(),
    ensures
        final(rd).wf(),
        final(rd).data@ == old(rd).data@,
        match r {
            Ok(v) => sp_content_tail(old(rd).data@, old(rd).pos as int, sp_names(type_readers@))
                == Some(((v.0@, v.1@.map_values(|a: XnbAsset| a@)), final(rd).pos as int)),
            Err(_) => sp_content_tail(
                old(rd).data@,
                old(rd).pos as int,
                sp_names(type_readers@),
            ) is None,
        },
{
    let sac = match rd.read_varint() {
        Ok(v) => v,
        Err(e) => {
            return Err(e);
        },
    };
    let primary_asset = match XnbAsset::read(rd, type_readers) {
        Ok(v) => v,
        Err(e) => {
            return Err(e);
        },
    };
    let nshared: u32 = if sac >= 0x8000_0000 {
        0
    } else {
        sac
    };
    let shared_assets = match read_assets(rd, type_readers, nshared) {
        Ok(v) => v,
        Err(e) => {
            return Err(e);
        },
    };
    Ok((primary_asset, shared_assets))
}

impl Xnb {
    /// Decode the content layout of an already-decompressed payload.
    /// Bytes past the final shared asset are ignored.
    #[verifier::rlimit(100)]
    #[verifier::spinoff_prover]
    pub fn parse_content_from(decompressed: &[u8]) -> (r: Result<XnbContent, DecodeError>)
        ensures
            match r {
                Ok(v) => sp_content(decompressed@, 0) matches Some((cv, pe)) && cv == v@,
                Err(_) => sp_content(decompressed@, 0) is None,
            },
    {
        let ghost d = decompressed@;
        let mut rd = Reader::new(decompressed);
        let trc = match rd.read_varint() {
            Ok(v) => v,
            Err(e) => {
                return Err(e);
            },
        };
        let type_readers = match read_type_readers(&mut rd, trc) {
            Ok(v) => v,
            Err(e) => {
                return Err(e);
            },
        };
        proof {
            lemma_tr_names(type_readers@);
        }
        let tail = match read_content_tail(&mut rd, type_readers.as_slice()) {
            Ok(v) => v,
            Err(e) => {
                return Err(e);
            },
        };
        let (primary_asset, shared_assets) = tail;
        Ok(XnbContent { type_readers, primary_asset, shared_assets })
    }

    /// Expand the payload and decode its content layout. On an
    /// uncompressed payload this is exactly the content parse of the raw
    /// payload, success and failure alike; on a compressed one the
    /// stateful outside decompressor decides the bytes, and success means
    /// some byte sequence of the declared total frame size parsed to the
    /// result.
    pub fn parse_content(&self) -> (r: Result<XnbContent, DecodeError>)
        ensures
            !self.header.compressed ==> match r {
                Ok(v) => sp_content(self.data@, 0) matches Some((cv, pe)) && cv == v@,
                Err(_) => sp_content(self.data@, 0) is None,
            },
            self.header.compressed ==> (r matches Ok(v) ==> sp_frames(self.data@, 0)
                matches Some(fs) && (exists|d2: Seq<u8>|
                d2.len() == sp_frames_total(fs) && ((#[trigger] sp_content(d2, 0)) matches Some(
                    (cv, pe),
                ) && cv == v@))),
    {
        let decompressed = match self.decompress() {
            Ok(v) => v,
            Err(e) => {
                return Err(e);
            },
        };
        let r = Xnb::parse_content_from(decompressed.as_slice());
        proof {
            if self.header.compressed && r is Ok {
                assert(sp_content(decompressed@, 0) matches Some((cv, pe)) && cv == r->Ok_0@);
            }
        }
        r
    }
}

} // verus!

use vstd::prelude::*;

use crate::err::DecodeError;

verus! {

// Spec-level parsers over a byte sequence. Each returns the decoded value
// together with the position just past the bytes it consumed, or `None` when
// the bytes at `p` do not form such a value.

pub open spec fn sp_u8(d: Seq<u8>, p: int) -> Option<(u8, int)> {
    if 0 <= p && p + 1 <= d.len() {
        Some((d[p], p + 1))
    } else {
        None
    }
}

pub open spec fn sp_bool(d: Seq<u8>, p: int) -> Option<(bool, int)> {
    match sp_u8(d, p) {
        Some((b, p1)) => Some((b != 0, p1)),
        None => None,
    }
}

pub open spec fn sp_u16le(d: Seq<u8>, p: int) -> Option<(u16, int)> {
    if 0 <= p && p + 2 <= d.len() {
        Some(((d[p] as u16 + d[p + 1] as u16 * 0x100) as u16, p + 2))
    } else {
        None
    }
}

pub open spec fn sp_u16be(d: Seq<u8>, p: int) -> Option<(u16, int)> {
    if 0 <= p && p + 2 <= d.len() {
        Some(((d[p] as u16 * 0x100 + d[p + 1] as u16) as u16, p + 2))
    } else {
        None
    }
}

pub open spec fn sp_u32le(d: Seq<u8>, p: int) -> Option<(u32, int)> {
    if 0 <= p && p + 4 <= d.len() {
        Some(
            ((d[p] as u32 + d[p + 1] as u32 * 0x100 + d[p + 2] as u32 * 0x10000 + d[p
                + 3] as u32 * 0x1000000) as u32, p + 4),
        )
    } else {
        None
    }
}

pub open spec fn sp_i32le(d: Seq<u8>, p: int) -> Option<(i32, int)> {
    match sp_u32le(d, p) {
        Some((v, p1)) => Some((v as i32, p1)),
        None => None,
    }
}

/// An IEEE 754 single is carried as its little-endian 32-bit pattern; the
/// library never interprets the bits arithmetically.
pub open spec fn sp_f32bits(d: Seq<u8>, p: int) -> Option<(u32, int)> {
    sp_u32le(d, p)
}

pub open spec fn sp_bytes(d: Seq<u8>, p: int, n: int) -> Option<(Seq<u8>, int)> {
    if 0 <= p && 0 <= n && p + n <= d.len() {
        Some((d.subrange(p, p + n), p + n))
    } else {
        None
    }
}

// The 7-bit encoded ("varint") signed 32-bit integer: each byte contributes
// seven low bits, a set high bit means another byte follows, and at most five
// bytes are consumed. The fifth byte's bits beyond the 32-bit budget are
// discarded, as the producing serializer does.

pub open spec fn sp_varint_rec(d: Seq<u8>, p: int, count: nat, acc: u32) -> Option<(u32, int)>
    decreases 5 - count,
{
    if count >= 5 {
        None
    } else {
        match sp_u8(d, p) {
            None => None,
            Some((b, p1)) => {
                let acc1 = (acc | (((b & 0x7f) as u32) << ((7 * count) as u32))) as u32;
                if b & 0x80 == 0 {
                    Some((acc1, p1))
                } else {
                    sp_varint_rec(d, p1, (count + 1) as nat, acc1)
                }
            },
        }
    }
}

pub open spec fn sp_varint(d: Seq<u8>, p: int) -> Option<(u32, int)> {
    sp_varint_rec(d, p, 0, 0)
}

/// True when the varint at `p` fails because a fifth byte still carries the
/// continuation bit (a format error, as opposed to a truncated stream).
pub open spec fn sp_varint_overlong(d: Seq<u8>, p: int) -> bool {
    &&& 0 <= p
    &&& p + 5 <= d.len()
    &&& d[p] & 0x80 != 0
    &&& d[p + 1] & 0x80 != 0
    &&& d[p + 2] & 0x80 != 0
    &&& d[p + 3] & 0x80 != 0
    &&& d[p + 4] & 0x80 != 0
}

/// A varint length prefix followed by that many bytes of UTF-8.
pub open spec fn sp_string(d: Seq<u8>, p: int) -> Option<(Seq<char>, int)> {
    match sp_varint(d, p) {
        None => None,
        Some((len, p1)) => {
            if (len as i32) < 0 {
                None
            } else {
                match sp_bytes(d, p1, len as int) {
                    None => None,
                    Some((bs, p2)) => {
                        if vstd::utf8::valid_utf8(bs) {
                            Some((vstd::utf8::decode_utf8(bs), p2))
                        } else {
                            None
                        }
                    },
                }
            }
        },
    }
}

/// A cursor over an immutable byte buffer. All decoding goes through this
/// reader; each method's contract ties the value it returns to the spec
/// parser for the same encoding.
pub struct Reader<'a> {
    pub data: &'a [u8],
    pub pos: usize,
}

impl<'a> Reader<'a> {
    pub open spec fn wf(&self) -> bool {
        self.pos <= self.data@.len()
    }

    pub fn new(data: &'a [u8]) -> (r: Reader<'a>)
        ensures
            r.wf(),
            r.data@ == data@,
            r.pos == 0,
    {
        Reader { data, pos: 0 }
    }

    /// Bytes not yet consumed.
    pub fn remaining(&self) -> (r: usize)
        requires
            self.wf(),
        ensures
            r == self.data@.len() - self.pos,
    {
        self.data.len() - self.pos
    }

    pub fn read_u8(&mut self) -> (r: Result<u8, DecodeError>)
        requires
            old(self).wf(),
        ensures
            final(self).wf(),
            final(self).data@ == old(self).data@,
            match r {
                Ok(v) => sp_u8(old(self).data@, old(self).pos as int) == Some((v, final(self).pos as int)),
                Err(e) => sp_u8(old(self).data@, old(self).pos as int) is None && e
                    == DecodeError::Truncated && final(self).pos == old(self).pos,
            },
    {
        if self.pos < self.data.len() {
            let b = self.data[self.pos];
            self.pos = self.pos + 1;
            Ok(b)
        } else {
            Err(DecodeError::Truncated)
        }
    }

    pub fn read_bool(&mut self) -> (r: Result<bool, DecodeError>)
        requires
            old(self).wf(),
        ensures
            final(self).wf(),
            final(self).data@ == old(self).data@,
            match r {
                Ok(v) => sp_bool(old(self).data@, old(self).pos as int) == Some((v, final(self).pos as int)),
                Err(e) => sp_bool(old(self).data@, old(self).pos as int) is None && e
                    == DecodeError::Truncated && final(self).pos == old(self).pos,
            },
    {
        match self.read_u8() {
            Ok(b) => Ok(b != 0),
            Err(e) => Err(e),
        }
    }

    pub fn read_u16le(&mut self) -> (r: Result<u16, DecodeError>)
        requires
            old(self).wf(),
        ensures
            final(self).wf(),
            final(self).data@ == old(self).data@,
            match r {
                Ok(v) => sp_u16le(old(self).data@, old(self).pos as int) == Some((v, final(self).pos as int)),
                Err(e) => sp_u16le(old(self).data@, old(self).pos as int) is None && e
                    == DecodeError::Truncated && final(self).pos == old(self).pos,
            },
    {
        if self.data.len() - self.pos >= 2 {
            let b0 = self.data[self.pos];
            let b1 = self.data[self.pos + 1];
            self.pos = self.pos + 2;
            Ok(b0 as u16 + b1 as u16 * 0x100)
        } else {
            Err(DecodeError::Truncated)
        }
    }

    pub fn read_u16be(&mut self) -> (r: Result<u16, DecodeError>)
        requires
            old(self).wf(),
        ensures
            final(self).wf(),
            final(self).data@ == old(self).data@,
            match r {
                Ok(v) => sp_u16be(old(self).data@, old(self).pos as int) == Some((v, final(self).pos as int)),
                Err(e) => sp_u16be(old(self).data@, old(self).pos as int) is None && e
                    == DecodeError::Truncated && final(self).pos == old(self).pos,
            },
    {
        if self.data.len() - self.pos >= 2 {
            let b0 = self.data[self.pos];
            let b1 = self.data[self.pos + 1];
            self.pos = self.pos + 2;
            Ok(b0 as u16 * 0x100 + b1 as u16)
        } else {
            Err(DecodeError::Truncated)
        }
    }

    pub fn read_u32le(&mut self) -> (r: Result<u32, DecodeError>)
        requires
            old(self).wf(),
        ensures
            final(self).wf(),
            final(self).data@ == old(self).data@,
            match r {
                Ok(v) => sp_u32le(old(self).data@, old(self).pos as int) == Some((v, final(self).pos as int)),
                Err(e) => sp_u32le(old(self).data@, old(self).pos as int) is None && e
                    == DecodeError::Truncated && final(self).pos == old(self).pos,
            },
    {
        if self.data.len() - self.pos >= 4 {
            let b0 = self.data[self.pos];
            let b1 = self.data[self.pos + 1];
            let b2 = self.data[self.pos + 2];
            let b3 = self.data[self.pos + 3];
            self.pos = self.pos + 4;
            Ok(b0 as u32 + b1 as u32 * 0x100 + b2 as u32 * 0x10000 + b3 as u32 * 0x1000000)
        } else {
            Err(DecodeError::Truncated)
        }
    }

    pub fn read_i32le(&mut self) -> (r: Result<i32, DecodeError>)
        requires
            old(self).wf(),
        ensures
            final(self).wf(),
            final(self).data@ == old(self).data@,
            match r {
                Ok(v) => sp_i32le(old(self).data@, old(self).pos as int) == Some((v, final(self).pos as int)),
                Err(e) => sp_i32le(old(self).data@, old(self).pos as int) is None && e
                    == DecodeError::Truncated && final(self).pos == old(self).pos,
            },
    {
        match self.read_u32le() {
            Ok(v) => Ok(v as i32),
            Err(e) => Err(e),
        }
    }

    pub fn read_f32bits(&mut self) -> (r: Result<u32, DecodeError>)
        requires
            old(self).wf(),
        ensures
            final(self).wf(),
            final(self).data@ == old(self).data@,
            match r {
                Ok(v) => sp_f32bits(old(self).data@, old(self).pos as int) == Some(
                    (v, final(self).pos as int),
                ),
                Err(e) => sp_f32bits(old(self).data@, old(self).pos as int) is None && e
                    == DecodeError::Truncated && final(self).pos == old(self).pos,
            },
    {
        self.read_u32le()
    }

    pub fn read_bytes(&mut self, n: usize) -> (r: Result<Vec<u8>, DecodeError>)
        requires
            old(self).wf(),
        ensures
            final(self).wf(),
            final(self).data@ == old(self).data@,
            match r {
                Ok(v) => sp_bytes(old(self).data@, old(self).pos as int, n as int) == Some(
                    (v@, final(self).pos as int),
                ),
                Err(e) => sp_bytes(old(self).data@, old(self).pos as int, n as int) is None && e
                    == DecodeError::Truncated && final(self).pos == old(self).pos,
            },
    {
        let len: usize = self.data.len();
        if len - self.pos >= n {
            let mut v: Vec<u8> = Vec::new();
            let mut i: usize = 0;
            while i < n
                invariant
                    self.wf(),
                    i <= n,
                    len == self.data@.len(),
                    self.data@.len() - self.pos >= n,
                    v@ =~= self.data@.subrange(self.pos as int, self.pos + i),
                decreases n - i,
            {
                v.push(self.data[self.pos + i]);
                i = i + 1;
            }
            proof {
                assert(v@ =~= self.data@.subrange(self.pos as int, self.pos + n));
            }
            self.pos = self.pos + n;
            Ok(v)
        } else {
            Err(DecodeError::Truncated)
        }
    }

    /// The 7-bit encoded signed integer of the format, returned as the raw 32
    /// bits. Fails with `MalformedVarint` when five continuation bits in a row
    /// leave the encoding unterminated, and with `Truncated` when the stream
    /// ends first.
    pub fn read_varint(&mut self) -> (r: Result<u32, DecodeError>)
        requires
            old(self).wf(),
        ensures
            final(self).wf(),
            final(self).data@ == old(self).data@,
            match r {
                Ok(v) => sp_varint(old(self).data@, old(self).pos as int) == Some(
                    (v, final(self).pos as int),
                ) && final(self).pos > old(self).pos,
                Err(e) => sp_varint(old(self).data@, old(self).pos as int) is None
                    && final(self).pos == old(self).pos && (e == DecodeError::MalformedVarint || e == DecodeError::Truncated) && ((e
                    == DecodeError::MalformedVarint) <==> sp_varint_overlong(
                    old(self).data@,
                    old(self).pos as int,
                )),
            },
    {
        let start: usize = self.pos;
        let ghost d = self.data@;
        let mut acc: u32 = 0;
        let mut shift: u32 = 0;
        loop
            invariant
                self.wf(),
                self.data@ == d,
                d == old(self).data@,
                start == old(self).pos,
                start <= self.pos <= self.data@.len(),
                shift == 7 * (self.pos - start),
                shift <= 28,
                sp_varint_rec(d, start as int, 0, 0) == sp_varint_rec(
                    d,
                    self.pos as int,
                    (self.pos - start) as nat,
                    acc,
                ),
                forall|i: int|
                    start <= i < self.pos ==> i < d.len() && (#[trigger] d[i]) & 0x80 != 0,
            decreases 5 - (self.pos - start),
        {
            if self.pos >= self.data.len() {
                proof {
                    assert(sp_varint_rec(d, self.pos as int, (self.pos - start) as nat, acc)
                        is None);
                    assert(!sp_varint_overlong(d, start as int));
                }
                self.pos = start;
                return Err(DecodeError::Truncated);
            }
            let b = self.data[self.pos];
            let acc1: u32 = acc | (((b & 0x7f) as u32) << shift);
            proof {
                assert(sp_varint_rec(d, self.pos as int, (self.pos - start) as nat, acc) == (if b
                    & 0x80 == 0 {
                    Some((acc1, self.pos + 1 as int))
                } else {
                    sp_varint_rec(d, self.pos + 1, (self.pos - start + 1) as nat, acc1)
                }));
            }
            if b & 0x80 == 0 {
                self.pos = self.pos + 1;
                return Ok(acc1);
            }
            if shift == 28 {
                proof {
                    assert(sp_varint_rec(d, self.pos + 1, 5nat, acc1) is None);
                    assert(d[start as int] & 0x80 != 0 && d[start + 1] & 0x80 != 0 && d[start + 2]
                        & 0x80 != 0 && d[start + 3] & 0x80 != 0);
                    assert(d[start + 4] == b);
                }
                self.pos = start;
                return Err(DecodeError::MalformedVarint);
            }
            acc = acc1;
            self.pos = self.pos + 1;
            shift = shift + 7;
        }
    }

    /// A length-prefixed UTF-8 string: varint byte length, then that many
    /// bytes. Relies on `String::from_utf8` agreeing with the UTF-8 validity
    /// and decoding functions of the verification library.
    pub fn read_string(&mut self) -> (r: Result<String, DecodeError>)
        requires
            old(self).wf(),
        ensures
            final(self).wf(),
            final(self).data@ == old(self).data@,
            match r {
                Ok(v) => sp_string(old(self).data@, old(self).pos as int) == Some(
                    (v@, final(self).pos as int),
                ) && final(self).pos > old(self).pos,
                Err(_) => sp_string(old(self).data@, old(self).pos as int) is None,
            },
    {
        let ghost p0 = self.pos as int;
        let len: u32 = match self.read_varint() {
            Ok(v) => v,
            Err(e) => {
                return Err(e);
            },
        };
        if (len as i32) < 0 {
            return Err(DecodeError::InvalidString);
        }
        let bs: Vec<u8> = match self.read_bytes(len as usize) {
            Ok(v) => v,
            Err(e) => {
                return Err(e);
            },
        };
        match utf8_to_string(bs) {
            Some(s) => Ok(s),
            None => Err(DecodeError::InvalidString),
        }
    }
}

/// Relies on `String::from_utf8`: it succeeds exactly on valid UTF-8 and
/// decodes it to the scalar-value sequence described by `vstd::utf8`.
#[verifier::external_body]
fn utf8_to_string(bytes: Vec<u8>) -> (r: Option<String>)
    ensures
        r is Some <==> vstd::utf8::valid_utf8(bytes@),
        r is Some ==> r->0@ == vstd::utf8::decode_utf8(bytes@),
{
    String::from_utf8(bytes).ok()
}

/// Encode a 32-bit value in the 7-bit continuation scheme: low seven bits
/// per byte, high bit set while more follow. Decoding the result yields
/// the value back and consumes exactly the encoded bytes, never more than
/// five.
pub fn encode_varint(v: u32) -> (r: Vec<u8>)
    ensures
        sp_varint(r@, 0) == Some((v, r@.len() as int)),
        1 <= r@.len() <= 5,
{
    let mut out: Vec<u8> = Vec::new();
    if v < 0x80 {
        out.push(v as u8);
        proof {
            let b0 = out@[0];
            assert(b0 & 0x80 == 0 && (0u32 | (((b0 & 0x7f) as u32) << 0u32)) == v) by (bit_vector)
                requires
                    v < 0x80 && b0 == v as u8,
            ;
            assert(sp_varint(out@, 0) == Some((v, 1int)));
        }
    } else if v < 0x4000 {
        out.push((v & 0x7f | 0x80) as u8);
        out.push((v >> 7) as u8);
        proof {
            let b0 = out@[0];
            let b1 = out@[1];
            let a1 = (0u32 | (((b0 & 0x7f) as u32) << 0u32)) as u32;
            assert(b0 & 0x80 != 0 && b1 & 0x80 == 0 && (a1 | (((b1 & 0x7f) as u32) << 7u32))
                == v) by (bit_vector)
                requires
                    0x80 <= v < 0x4000 && b0 == (v & 0x7f | 0x80) as u8 && b1 == (v >> 7) as u8
                        && a1 == (0u32 | (((b0 & 0x7f) as u32) << 0u32)) as u32,
            ;
            assert(sp_varint_rec(out@, 1, 1, a1) == Some((v, 2int)));
            assert(sp_varint(out@, 0) == Some((v, 2int)));
        }
    } else if v < 0x200000 {
        out.push((v & 0x7f | 0x80) as u8);
        out.push((v >> 7 & 0x7f | 0x80) as u8);
        out.push((v >> 14) as u8);
        proof {
            let b0 = out@[0];
            let b1 = out@[1];
            let b2 = out@[2];
            let a1 = (0u32 | (((b0 & 0x7f) as u32) << 0u32)) as u32;
            let a2 = (a1 | (((b1 & 0x7f) as u32) << 7u32)) as u32;
            assert(b0 & 0x80 != 0 && b1 & 0x80 != 0 && b2 & 0x80 == 0 && (a2 | (((b2
                & 0x7f) as u32) << 14u32)) == v) by (bit_vector)
                requires
                    0x4000 <= v < 0x200000 && b0 == (v & 0x7f | 0x80) as u8 && b1 == (v >> 7 & 0x7f
                        | 0x80) as u8 && b2 == (v >> 14) as u8 && a1 == (0u32 | (((b0
                        & 0x7f) as u32) << 0u32)) as u32 && a2 == (a1 | (((b1 & 0x7f) as u32)
                        << 7u32)) as u32,
            ;
            assert(sp_varint_rec(out@, 2, 2, a2) == Some((v, 3int)));
            assert(sp_varint_rec(out@, 1, 1, a1) == Some((v, 3int)));
            assert(sp_varint(out@, 0) == Some((v, 3int)));
        }
    } else if v < 0x10000000 {
        out.push((v & 0x7f | 0x80) as u8);
        out.push((v >> 7 & 0x7f | 0x80) as u8);
        out.push((v >> 14 & 0x7f | 0x80) as u8);
        out.push((v >> 21) as u8);
        proof {
            let b0 = out@[0];
            let b1 = out@[1];
            let b2 = out@[2];
            let b3 = out@[3];
            let a1 = (0u32 | (((b0 & 0x7f) as u32) << 0u32)) as u32;
            let a2 = (a1 | (((b1 & 0x7f) as u32) << 7u32)) as u32;
            let a3 = (a2 | (((b2 & 0x7f) as u32) << 14u32)) as u32;
            assert(b0 & 0x80 != 0 && b1 & 0x80 != 0 && b2 & 0x80 != 0 && b3 & 0x80 == 0 && (a3 | ((
            (b3 & 0x7f) as u32) << 21u32)) == v) by (bit_vector)
                requires
                    0x200000 <= v < 0x10000000 && b0 == (v & 0x7f | 0x80) as u8 && b1 == (v >> 7
                        & 0x7f | 0x80) as u8 && b2 == (v >> 14 & 0x7f | 0x80) as u8 && b3 == (v
                        >> 21) as u8 && a1 == (0u32 | (((b0 & 0x7f) as u32) << 0u32)) as u32 && a2
                        == (a1 | (((b1 & 0x7f) as u32) << 7u32)) as u32 && a3 == (a2 | (((b2
                        & 0x7f) as u32) << 14u32)) as u32,
            ;
            assert(sp_varint_rec(out@, 3, 3, a3) == Some((v, 4int)));
            assert(sp_varint_rec(out@, 2, 2, a2) == Some((v, 4int)));
            assert(sp_varint_rec(out@, 1, 1, a1) == Some((v, 4int)));
            assert(sp_varint(out@, 0) == Some((v, 4int)));
        }
    } else {
        out.push((v & 0x7f | 0x80) as u8);
        out.push((v >> 7 & 0x7f | 0x80) as u8);
        out.push((v >> 14 & 0x7f | 0x80) as u8);
        out.push((v >> 21 & 0x7f | 0x80) as u8);
        out.push((v >> 28) as u8);
        proof {
            let b0 = out@[0];
            let b1 = out@[1];
            let b2 = out@[2];
            let b3 = out@[3];
            let b4 = out@[4];
            let a1 = (0u32 | (((b0 & 0x7f) as u32) << 0u32)) as u32;
            let a2 = (a1 | (((b1 & 0x7f) as u32) << 7u32)) as u32;
            let a3 = (a2 | (((b2 & 0x7f) as u32) << 14u32)) as u32;
            let a4 = (a3 | (((b3 & 0x7f) as u32) << 21u32)) as u32;
            assert(b0 & 0x80 != 0 && b1 & 0x80 != 0 && b2 & 0x80 != 0 && b3 & 0x80 != 0 && b4
                & 0x80 == 0 && (a4 | (((b4 & 0x7f) as u32) << 28u32)) == v) by (bit_vector)
                requires
                    0x10000000 <= v && b0 == (v & 0x7f | 0x80) as u8 && b1 == (v >> 7 & 0x7f
                        | 0x80) as u8 && b2 == (v >> 14 & 0x7f | 0x80) as u8 && b3 == (v >> 21
                        & 0x7f | 0x80) as u8 && b4 == (v >> 28) as u8 && a1 == (0u32 | (((b0
                        & 0x7f) as u32) << 0u32)) as u32 && a2 == (a1 | (((b1 & 0x7f) as u32)
                        << 7u32)) as u32 && a3 == (a2 | (((b2 & 0x7f) as u32) << 14u32)) as u32
                        && a4 == (a3 | (((b3 & 0x7f) as u32) << 21u32)) as u32,
            ;
            assert(sp_varint_rec(out@, 4, 4, a4) == Some((v, 5int)));
            assert(sp_varint_rec(out@, 3, 3, a3) == Some((v, 5int)));
            assert(sp_varint_rec(out@, 2, 2, a2) == Some((v, 5int)));
            assert(sp_varint_rec(out@, 1, 1, a1) == Some((v, 5int)));
            assert(sp_varint(out@, 0) == Some((v, 5int)));
        }
    }
    out
}

/// A successful varint decode never consumes more than five bytes.
pub proof fn lemma_varint_max_len(d: Seq<u8>, p: int)
    ensures
        sp_varint(d, p) matches Some((v, p1)) ==> p1 - p <= 5,
{
    lemma_varint_rec_len(d, p, 0, 0);
}

proof fn lemma_varint_rec_len(d: Seq<u8>, p: int, count: nat, acc: u32)
    requires
        count <= 5,
    ensures
        sp_varint_rec(d, p, count, acc) matches Some((v, p1)) ==> p1 - p <= 5 - count,
    decreases 5 - count,
{
    if count < 5 {
        match sp_u8(d, p) {
            None => {},
            Some((b, p1)) => {
                let acc1 = (acc | (((b & 0x7f) as u32) << ((7 * count) as u32))) as u32;
                if b & 0x80 != 0 {
                    lemma_varint_rec_len(d, p1, (count + 1) as nat, acc1);
                }
            },
        }
    }
}

} // verus!

use vstd::prelude::*;

use crate::err::DecodeError;
use crate::reader::{sp_bool, sp_bytes, sp_u32le, Reader};

verus! {

/// Raw index data: a leading flag for 16-bit versus 32-bit indices, then a
/// size-prefixed opaque byte blob.
#[derive(Debug, Clone, PartialEq, Eq)]
pub struct IndexBuffer {
    pub is_16_bit: bool,
    pub data: Vec<u8>,
}

pub struct IndexBufferV {
    pub is_16_bit: bool,
    pub data: Seq<u8>,
}

impl View for IndexBuffer {
    type V = IndexBufferV;

    open spec fn view(&self) -> IndexBufferV {
        IndexBufferV { is_16_bit: self.is_16_bit, data: self.data@ }
    }
}

pub open spec fn sp_index_buffer(d: Seq<u8>, p: int) -> Option<(IndexBufferV, int)> {
    match sp_bool(d, p) {
        None => None,
        Some((is_16_bit, p1)) => match sp_u32le(d, p1) {
            None => None,
            Some((size, p2)) => match sp_bytes(d, p2, size as int) {
                None => None,
                Some((bs, p3)) => Some((IndexBufferV { is_16_bit, data: bs }, p3)),
            },
        },
    }
}

impl IndexBuffer {
    pub fn read(rd: &mut Reader) -> (r: Result<IndexBuffer, DecodeError>)
        requires
            old(rd).wf(),
        ensures
            final(rd).wf(),
            final(rd).data@ == old(rd).data@,
            match r {
                Ok(v) => sp_index_buffer(old(rd).data@, old(rd).pos as int) == Some(
                    (v@, final(rd).pos as int),
                ) && final(rd).pos >= old(rd).pos,
                Err(_) => sp_index_buffer(old(rd).data@, old(rd).pos as int) is None,
            },
    {
        let is_16_bit = match rd.read_bool() {
            Ok(v) => v,
            Err(e) => {
                return Err(e);
            },
        };
        let size = match rd.read_u32le() {
            Ok(v) => v,
            Err(e) => {
                return Err(e);
            },
        };
        let data = match rd.read_bytes(size as usize) {
            Ok(v) => v,
            Err(e) => {
                return Err(e);
            },
        };
        Ok(IndexBuffer { is_16_bit, data })
    }

    /// How many indices the blob holds: two bytes each when 16-bit, four
    /// otherwise.
    pub fn index_count(&self) -> (r: usize)
        ensures
            self.is_16_bit ==> r == self.data@.len() / 2,
            !self.is_16_bit ==> r == self.data@.len() / 4,
    {
        let index_size: usize = if self.is_16_bit {
            2
        } else {
            4
        };
        self.data.len() / index_size
    }
}

} // verus!

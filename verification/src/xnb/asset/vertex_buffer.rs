use vstd::prelude::*;

use crate::err::DecodeError;
use crate::reader::{sp_bytes, sp_u32le, Reader};

verus! {

/// Raw vertex data: a size-prefixed opaque byte blob, interpreted later
/// through a vertex declaration.
#[derive(Debug, Clone, PartialEq, Eq)]
pub struct VertexBuffer {
    pub data: Vec<u8>,
}

pub struct VertexBufferV {
    pub data: Seq<u8>,
}

impl View for VertexBuffer {
    type V = VertexBufferV;

    open spec fn view(&self) -> VertexBufferV {
        VertexBufferV { data: self.data@ }
    }
}

pub open spec fn sp_vertex_buffer(d: Seq<u8>, p: int) -> Option<(VertexBufferV, int)> {
    match sp_u32le(d, p) {
        None => None,
        Some((size, p1)) => match sp_bytes(d, p1, size as int) {
            None => None,
            Some((bs, p2)) => Some((VertexBufferV { data: bs }, p2)),
        },
    }
}

impl VertexBuffer {
    pub fn read(rd: &mut Reader) -> (r: Result<VertexBuffer, DecodeError>)
        requires
            old(rd).wf(),
        ensures
            final(rd).wf(),
            final(rd).data@ == old(rd).data@,
            match r {
                Ok(v) => sp_vertex_buffer(old(rd).data@, old(rd).pos as int) == Some(
                    (v@, final(rd).pos as int),
                ) && final(rd).pos >= old(rd).pos,
                Err(_) => sp_vertex_buffer(old(rd).data@, old(rd).pos as int) is None,
            },
    {
        let size = match rd.read_u32le() {
            Ok(v) => v,
            Err(e) => {
                return Err(e);
            },
        };
        let data = match rd.read_bytes(size as usize) {
            Ok(v) => v,
            Err(e) => {
                return Err(e);
            },
        };
        Ok(VertexBuffer { data })
    }
}

} // verus!

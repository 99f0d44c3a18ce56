//! The bytes that a loadable segment occupies in memory: its file bytes,
//! then zeros up to its in-memory size.
use vstd::prelude::*;

use crate::elf::ProgramHeader;
use crate::error::LoadError;

verus! {

/// The file bytes of `p` lie inside the image buffer.
pub open spec fn file_range_in_bounds(p: ProgramHeader, len: int) -> bool {
    p.p_offset + p.p_filesz <= len
}

/// Memory image of `p`: `p_memsz` bytes, the first `p_filesz` of them taken
/// from the file at `p_offset`, the rest zero.
pub open spec fn segment_contents(p: ProgramHeader, s: Seq<u8>) -> Seq<u8> {
    Seq::new(
        p.p_memsz as nat,
        |i: int|
            if i < p.p_filesz {
                s[p.p_offset + i]
            } else {
                0u8
            },
    )
}

/// The error that materializing `p` from a buffer of `len` bytes yields, if any.
pub open spec fn materialize_error_of(p: ProgramHeader, len: int) -> Option<LoadError> {
    if !file_range_in_bounds(p, len) {
        Some(LoadError::ParseError)
    } else if p.p_memsz > usize::MAX {
        Some(LoadError::AllocationFailure)
    } else {
        None
    }
}

impl ProgramHeader {
    /// The bytes to place at `p_vaddr`, checked against the buffer first.
    pub fn load_bytes(&self, buffer: &[u8]) -> (r: Result<Vec<u8>, LoadError>)
        ensures
            match r {
                Ok(v) => materialize_error_of(*self, buffer@.len() as int) is None && v@
                    == segment_contents(*self, buffer@),
                Err(e) => materialize_error_of(*self, buffer@.len() as int) == Some(e),
            },
    {
        if self.p_offset as u128 + self.p_filesz as u128 > buffer.len() as u128 {
            return Err(LoadError::ParseError);
        }
        if self.p_memsz as u128 > usize::MAX as u128 {
            return Err(LoadError::AllocationFailure);
        }
        let n = self.p_memsz as usize;
        let offset = self.p_offset as usize;
        let mut out: Vec<u8> = Vec::new();
        let mut i: usize = 0;
        while i < n
            invariant
                n == self.p_memsz,
                offset == self.p_offset,
                file_range_in_bounds(*self, buffer.len() as int),
                i <= n,
                out@ == segment_contents(*self, buffer@).take(i as int),
            decreases n - i,
        {
            let byte = if (i as u64) < self.p_filesz {
                buffer[offset + i]
            } else {
                0u8
            };
            out.push(byte);
            assert(out@ =~= segment_contents(*self, buffer@).take(i + 1));
            i = i + 1;
        }
        assert(out@ =~= segment_contents(*self, buffer@));
        Ok(out)
    }
}

/// Materializing a segment copies exactly its file bytes and zero-fills the
/// rest of its memory image: nothing past `p_filesz` comes from the file.
pub proof fn lemma_zero_fill(p: ProgramHeader, s: Seq<u8>)
    requires
        file_range_in_bounds(p, s.len() as int),
    ensures
        segment_contents(p, s).len() == p.p_memsz,
        forall|i: int|
            0 <= i < p.p_filesz && i < p.p_memsz ==> #[trigger] segment_contents(p, s)[i] == s[p.p_offset
                + i],
        forall|i: int| p.p_filesz <= i < p.p_memsz ==> #[trigger] segment_contents(p, s)[i] == 0,
        p.p_filesz <= p.p_memsz ==> segment_contents(p, s).take(p.p_filesz as int) == s.subrange(
            p.p_offset as int,
            p.p_offset + p.p_filesz,
        ),
{
    if p.p_filesz <= p.p_memsz {
        assert(segment_contents(p, s).take(p.p_filesz as int) =~= s.subrange(
            p.p_offset as int,
            p.p_offset + p.p_filesz,
        ));
    }
}

} // verus!

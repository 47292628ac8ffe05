//! Resolving a Local File Header from a central directory entry's recorded
//! offset: the fixed 30-byte body, its trailing name and extra fields, and
//! the payload window that follows them, exposed without decoding.

use vstd::prelude::*;
use crate::bytes::{spec_u16_le, spec_u32_le, read_u16_le, read_u32_le};
use crate::errors::ZipError;
use crate::records::{LocalFileHeader, LocalModel, spec_decode_local, decode_local, LOCAL_MAGIC};

verus! {

/// What resolving the local file header of `d` at `off` yields: the decoded
/// header with its payload bytes, or the first failure. An offset, a trailing
/// field or a payload that reaches past the end of the source is out of
/// range; four leading bytes that are not the local header signature are a
/// magic mismatch.
pub open spec fn spec_parse_local(d: Seq<u8>, off: int) -> Result<LocalModel, ZipError> {
    if !(0 <= off && off + 30 <= d.len()) {
        Err(ZipError::OffsetOutOfRange)
    } else if spec_u32_le(d, off) != LOCAL_MAGIC {
        Err(ZipError::BadLocalHeaderMagic)
    } else {
        let n = spec_u16_le(d, off + 26) as int;
        let m = spec_u16_le(d, off + 28) as int;
        let c = spec_u32_le(d, off + 18) as int;
        if off + 30 + n + m + c > d.len() {
            Err(ZipError::OffsetOutOfRange)
        } else {
            Ok(spec_decode_local(d, off))
        }
    }
}

/// A successfully resolved header is well formed: its buffers match its
/// length fields and its payload is exactly `compressed_size` bytes.
pub proof fn lemma_parse_local_ok_wf(d: Seq<u8>, off: int)
    requires
        spec_parse_local(d, off) is Ok,
    ensures
        spec_parse_local(d, off)->Ok_0.wf(),
{
}

/// Reads the local file header at `off`: checks the signature, decodes the
/// fixed body, reads the name and extra fields, and copies the
/// `compressed_size` payload bytes that follow them. Fails exactly as
/// `spec_parse_local` says.
pub fn read_local_header(d: &Vec<u8>, off: usize) -> (r: Result<LocalFileHeader, ZipError>)
    ensures
        ({
            let parsed = spec_parse_local(d@, off as int);
            match r {
                Ok(h) => parsed == Ok::<LocalModel, ZipError>(h@),
                Err(e) => parsed == Err::<LocalModel, ZipError>(e),
            }
        }),
{
    let len = d.len();
    if off > len || len - off < 30 {
        return Err(ZipError::OffsetOutOfRange);
    }
    let magic = read_u32_le(d, off);
    if magic != LOCAL_MAGIC {
        return Err(ZipError::BadLocalHeaderMagic);
    }
    let n = read_u16_le(d, off + 26) as usize;
    let m = read_u16_le(d, off + 28) as usize;
    let c = read_u32_le(d, off + 18) as usize;
    if len - (off + 30) < n + m || len - (off + 30) - (n + m) < c {
        return Err(ZipError::OffsetOutOfRange);
    }
    Ok(decode_local(d, off))
}

/// The payload window declared by the local file header at `off`: the
/// absolute offset just past the header's trailing fields, and the declared
/// `compressed_size`. The window lies entirely inside the source; its bytes
/// are not copied or decoded. Fails exactly as `spec_parse_local` says.
pub fn local_payload_range(d: &Vec<u8>, off: usize) -> (r: Result<(usize, usize), ZipError>)
    ensures
        ({
            let parsed = spec_parse_local(d@, off as int);
            match r {
                Ok((start, length)) => parsed matches Ok(h) && start as int == off + 30
                    + h.file_name_length + h.extra_field_length && length as int
                    == h.compressed_size as int && start + length <= d@.len(),
                Err(e) => parsed == Err::<LocalModel, ZipError>(e),
            }
        }),
{
    let len = d.len();
    if off > len || len - off < 30 {
        return Err(ZipError::OffsetOutOfRange);
    }
    let magic = read_u32_le(d, off);
    if magic != LOCAL_MAGIC {
        return Err(ZipError::BadLocalHeaderMagic);
    }
    let n = read_u16_le(d, off + 26) as usize;
    let m = read_u16_le(d, off + 28) as usize;
    let c = read_u32_le(d, off + 18) as usize;
    if len - (off + 30) < n + m || len - (off + 30) - (n + m) < c {
        return Err(ZipError::OffsetOutOfRange);
    }
    Ok((off + 30 + n + m, c))
}

} // verus!

//! Locating and parsing the End Of Central Directory record. The EOCD has no
//! fixed offset: it is found by scanning backward from the end of the source,
//! and a candidate counts only if its recorded comment length makes the
//! record end exactly at end-of-file, so that a signature embedded in the
//! comment cannot masquerade as the record.

use vstd::prelude::*;
use crate::bytes::{spec_u16_le, spec_u32_le, read_u16_le, read_u32_le, copy_range};
use crate::errors::ZipError;
use crate::records::{EndOfCentralDirectoryRecord, eocd_fixed_at, decode_eocd, EOCD_MAGIC};

verus! {

/// A length-consistent EOCD candidate starts at `off`: the signature bytes
/// are there, the fixed body fits, and the recorded comment length makes the
/// record reach exactly to the end of the source.
pub open spec fn is_eocd_at(d: Seq<u8>, off: int) -> bool {
    &&& 0 <= off
    &&& off + 22 <= d.len()
    &&& spec_u32_le(d, off) == EOCD_MAGIC
    &&& off + 22 + spec_u16_le(d, off + 20) == d.len()
}

/// The true EOCD offset: the rightmost length-consistent candidate.
pub open spec fn is_true_eocd(d: Seq<u8>, off: int) -> bool {
    &&& is_eocd_at(d, off)
    &&& forall|o: int| o > off ==> !is_eocd_at(d, o)
}

/// At most one offset is the rightmost length-consistent candidate.
pub proof fn lemma_true_eocd_unique(d: Seq<u8>, a: int, b: int)
    requires
        is_true_eocd(d, a),
        is_true_eocd(d, b),
    ensures
        a == b,
{
}

/// A source shorter than the 22-byte fixed body holds no EOCD at all.
pub proof fn lemma_short_source_has_no_eocd(d: Seq<u8>)
    requires
        d.len() < 22,
    ensures
        forall|off: int| !is_eocd_at(d, off),
{
}

/// The locator's verdict depends only on the bytes outside the true record's
/// comment: two equally long sources that agree up to the comment, neither of
/// whose comments embeds a length-consistent signature, share the same true
/// EOCD offset.
pub proof fn lemma_location_ignores_comment(d1: Seq<u8>, d2: Seq<u8>, off: int)
    requires
        d1.len() == d2.len(),
        is_eocd_at(d1, off),
        forall|i: int| 0 <= i < off + 22 ==> d1[i] == d2[i],
        forall|o: int| o > off ==> !is_eocd_at(d1, o),
        forall|o: int| o > off ==> !is_eocd_at(d2, o),
    ensures
        is_true_eocd(d1, off),
        is_true_eocd(d2, off),
{
    assert(spec_u32_le(d2, off) == spec_u32_le(d1, off));
    assert(spec_u16_le(d2, off + 20) == spec_u16_le(d1, off + 20));
}

/// Scans backward from the end of `d` and returns the rightmost offset whose
/// four bytes carry the EOCD signature and whose recorded comment length is
/// consistent with the source's length. A signature inside a comment that
/// fails the consistency check is scanned past. Fails with `EocdNotFound`
/// when no offset qualifies, in particular on any source shorter than 22
/// bytes.
#[verifier::loop_isolation(false)]
pub fn find_eocd(d: &Vec<u8>) -> (r: Result<usize, ZipError>)
    ensures
        r matches Ok(off) ==> is_true_eocd(d@, off as int),
        r matches Err(e) ==> e == ZipError::EocdNotFound && forall|off: int|
            !is_eocd_at(d@, off),
{
    let len = d.len();
    if len < 22 {
        proof {
            lemma_short_source_has_no_eocd(d@);
        }
        return Err(ZipError::EocdNotFound);
    }
    let mut cand: usize = len - 22;
    loop
        invariant
            cand + 22 <= len,
            forall|o: int| o > cand ==> !is_eocd_at(d@, o),
        decreases cand,
    {
        let magic = read_u32_le(d, cand);
        if magic == EOCD_MAGIC {
            let comment_len = read_u16_le(d, cand + 20) as usize;
            if comment_len == len - (cand + 22) {
                return Ok(cand);
            }
        }
        proof {
            assert(!is_eocd_at(d@, cand as int));
        }
        if cand == 0 {
            return Err(ZipError::EocdNotFound);
        }
        cand = cand - 1;
    }
}

/// The EOCD entity: the fixed body, the offsets that bound it, and the
/// trailing comment.
#[derive(Clone, Debug)]
pub struct EofRecord {
    pub static_data: EndOfCentralDirectoryRecord,
    pub start_offset: usize,
    pub end_offset: usize,
    pub comment: Vec<u8>,
}

impl EofRecord {
    /// Parses the EOCD at `offset_starting`: decodes the fixed body, then
    /// reads exactly `comment_length` comment bytes from just past it. Fails
    /// with `MalformedRecord` when fewer than 22 bytes remain at the offset,
    /// and with `TruncatedComment` when the recorded comment length runs past
    /// the end of the source.
    pub fn new(d: &Vec<u8>, offset_starting: usize) -> (r: Result<EofRecord, ZipError>)
        ensures
            ({
                let off = offset_starting as int;
                if off + 22 > d@.len() {
                    r == Err::<EofRecord, ZipError>(ZipError::MalformedRecord)
                } else if off + 22 + eocd_fixed_at(d@, off).comment_length > d@.len() {
                    r == Err::<EofRecord, ZipError>(ZipError::TruncatedComment)
                } else {
                    r matches Ok(e) && e.static_data == eocd_fixed_at(d@, off)
                        && e.start_offset == offset_starting && e.end_offset == off + 22
                        && e.comment@ == d@.subrange(
                        off + 22,
                        off + 22 + eocd_fixed_at(d@, off).comment_length,
                    )
                }
            }),
    {
        let len = d.len();
        if len < 22 || offset_starting > len - 22 {
            return Err(ZipError::MalformedRecord);
        }
        let static_data = decode_eocd(d, offset_starting);
        let end_offset = offset_starting + 22;
        let comment_len = static_data.comment_length as usize;
        if comment_len > len - end_offset {
            return Err(ZipError::TruncatedComment);
        }
        let comment = copy_range(d, end_offset, comment_len);
        Ok(EofRecord { static_data, start_offset: offset_starting, end_offset, comment })
    }
}

} // verus!

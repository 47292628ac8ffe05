//! Reading the Central Directory: exactly `total_cdr` consecutive entries,
//! each a fixed 46-byte body followed by its three variable-length trailing
//! fields, with the cursor's total advance checked against the EOCD's
//! `size_of_cdr` at the end.

use vstd::prelude::*;
use crate::bytes::{spec_u16_le, spec_u32_le, read_u16_le, read_u32_le};
use crate::errors::ZipError;
use crate::records::{CentralDirectoryFileHeader, CdEntryModel, spec_decode_cdr, decode_cdr, CDR_MAGIC};

verus! {

/// The models of a sequence of decoded entries.
pub open spec fn models(s: Seq<CentralDirectoryFileHeader>) -> Seq<CdEntryModel> {
    s.map_values(|e: CentralDirectoryFileHeader| e@)
}

/// Number of central directory bytes the entries occupy together.
pub open spec fn cd_seq_len(es: Seq<CdEntryModel>) -> int
    decreases es.len(),
{
    if es.len() == 0 {
        0
    } else {
        cd_seq_len(es.drop_last()) + es.last().total_len()
    }
}

/// Entries never occupy a negative number of bytes.
pub proof fn lemma_cd_seq_len_nonneg(es: Seq<CdEntryModel>)
    ensures
        cd_seq_len(es) >= 0,
    decreases es.len(),
{
    if es.len() > 0 {
        lemma_cd_seq_len_nonneg(es.drop_last());
    }
}

/// What parsing `count` consecutive central directory entries of `d` from
/// `pos` yields: the decoded entries in disk order, or the first failure.
/// An entry whose fixed body runs past the end of the source, or whose
/// trailing fields do, is truncated; one whose first four bytes are not the
/// central directory signature is a magic mismatch.
pub open spec fn spec_parse_cd(d: Seq<u8>, pos: int, count: nat) -> Result<
    Seq<CdEntryModel>,
    ZipError,
>
    decreases count,
{
    if count == 0 {
        Ok(Seq::empty())
    } else if !(0 <= pos && pos + 46 <= d.len()) {
        Err(ZipError::TruncatedCentralDirectory)
    } else if spec_u32_le(d, pos) != CDR_MAGIC {
        Err(ZipError::BadCentralDirectoryMagic)
    } else {
        let n = spec_u16_le(d, pos + 28) as int;
        let m = spec_u16_le(d, pos + 30) as int;
        let k = spec_u16_le(d, pos + 32) as int;
        if pos + 46 + n + m + k > d.len() {
            Err(ZipError::TruncatedCentralDirectory)
        } else {
            match spec_parse_cd(d, pos + 46 + n + m + k, (count - 1) as nat) {
                Ok(rest) => Ok(seq![spec_decode_cdr(d, pos)] + rest),
                Err(err) => Err(err),
            }
        }
    }
}

/// A successful parse yields exactly `count` entries, every one of them
/// well formed.
pub proof fn lemma_parse_cd_ok_len(d: Seq<u8>, pos: int, count: nat)
    requires
        spec_parse_cd(d, pos, count) is Ok,
    ensures
        spec_parse_cd(d, pos, count)->Ok_0.len() == count,
        forall|j: int| 0 <= j < count ==> (#[trigger] spec_parse_cd(d, pos, count)->Ok_0[j]).wf(),
    decreases count,
{
    if count > 0 {
        let n = spec_u16_le(d, pos + 28) as int;
        let m = spec_u16_le(d, pos + 30) as int;
        let k = spec_u16_le(d, pos + 32) as int;
        lemma_parse_cd_ok_len(d, pos + 46 + n + m + k, (count - 1) as nat);
        assert(spec_decode_cdr(d, pos).wf());
    }
}

/// A parse of `count` central directory entries fails only by truncation or
/// by a magic mismatch.
pub proof fn lemma_parse_cd_err_kinds(d: Seq<u8>, pos: int, count: nat)
    requires
        spec_parse_cd(d, pos, count) is Err,
    ensures
        spec_parse_cd(d, pos, count)->Err_0 == ZipError::TruncatedCentralDirectory
            || spec_parse_cd(d, pos, count)->Err_0 == ZipError::BadCentralDirectoryMagic,
    decreases count,
{
    if count > 0 && 0 <= pos && pos + 46 <= d.len() && spec_u32_le(d, pos) == CDR_MAGIC {
        let n = spec_u16_le(d, pos + 28) as int;
        let m = spec_u16_le(d, pos + 30) as int;
        let k = spec_u16_le(d, pos + 32) as int;
        if pos + 46 + n + m + k <= d.len() {
            lemma_parse_cd_err_kinds(d, pos + 46 + n + m + k, (count - 1) as nat);
        }
    }
}

/// Reads `total_cdr` central directory entries starting at
/// `offset_cdr_start`, then checks that the cursor advanced by exactly
/// `size_of_cdr` bytes; a mismatch means the archive is corrupt or the EOCD
/// lied. Returns the entries in disk order, or the first failure: a
/// truncation or magic failure from parsing, else the size mismatch.
#[verifier::loop_isolation(false)]
pub fn read_central_directory(
    d: &Vec<u8>,
    offset_cdr_start: u32,
    size_of_cdr: u32,
    total_cdr: u16,
) -> (r: Result<Vec<CentralDirectoryFileHeader>, ZipError>)
    ensures
        ({
            let parsed = spec_parse_cd(d@, offset_cdr_start as int, total_cdr as nat);
            match r {
                Ok(v) => {
                    &&& parsed == Ok::<Seq<CdEntryModel>, ZipError>(models(v@))
                    &&& v@.len() == total_cdr as int
                    &&& cd_seq_len(models(v@)) == size_of_cdr as int
                },
                Err(e) => match parsed {
                    Ok(es) => e == ZipError::CentralDirectorySizeMismatch && cd_seq_len(es)
                        != size_of_cdr as int,
                    Err(pe) => e == pe,
                },
            }
        }),
{
    let len = d.len();
    let total: usize = total_cdr as usize;
    let start: usize = offset_cdr_start as usize;
    let mut entries: Vec<CentralDirectoryFileHeader> = Vec::new();
    let mut pos: usize = start;
    let mut i: usize = 0;
    while i < total
        invariant
            i <= total,
            entries@.len() == i as int,
            pos as int == start + cd_seq_len(models(entries@)),
            spec_parse_cd(d@, start as int, total as nat) == (match spec_parse_cd(
                d@,
                pos as int,
                (total - i) as nat,
            ) {
                Ok(rest) => Ok::<Seq<CdEntryModel>, ZipError>(models(entries@) + rest),
                Err(err) => Err::<Seq<CdEntryModel>, ZipError>(err),
            }),
        decreases total - i,
    {
        if pos > len || len - pos < 46 {
            proof {
                assert(spec_parse_cd(d@, pos as int, (total - i) as nat) == Err::<
                    Seq<CdEntryModel>,
                    ZipError,
                >(ZipError::TruncatedCentralDirectory));
            }
            return Err(ZipError::TruncatedCentralDirectory);
        }
        let magic = read_u32_le(d, pos);
        if magic != CDR_MAGIC {
            proof {
                assert(spec_parse_cd(d@, pos as int, (total - i) as nat) == Err::<
                    Seq<CdEntryModel>,
                    ZipError,
                >(ZipError::BadCentralDirectoryMagic));
            }
            return Err(ZipError::BadCentralDirectoryMagic);
        }
        let n = read_u16_le(d, pos + 28) as usize;
        let m = read_u16_le(d, pos + 30) as usize;
        let k = read_u16_le(d, pos + 32) as usize;
        if len - (pos + 46) < n + m + k {
            proof {
                assert(spec_parse_cd(d@, pos as int, (total - i) as nat) == Err::<
                    Seq<CdEntryModel>,
                    ZipError,
                >(ZipError::TruncatedCentralDirectory));
            }
            return Err(ZipError::TruncatedCentralDirectory);
        }
        let entry = decode_cdr(d, pos);
        let esize: usize = 46 + n + m + k;
        proof {
            let dd = d@;
            let p = pos as int;
            let c = (total - i) as nat;
            let e_model = spec_decode_cdr(dd, p);
            assert(e_model.wf());
            assert(e_model.total_len() == 46 + n + m + k);
            let rest_res = spec_parse_cd(dd, p + 46 + n + m + k, (c - 1) as nat);
            assert(spec_parse_cd(dd, p, c) == (match rest_res {
                Ok(rest) => Ok::<Seq<CdEntryModel>, ZipError>(seq![e_model] + rest),
                Err(err) => Err::<Seq<CdEntryModel>, ZipError>(err),
            }));
            assert(models(entries@.push(entry)) =~= models(entries@).push(e_model));
            assert(models(entries@).push(e_model).drop_last() =~= models(entries@));
            assert(cd_seq_len(models(entries@).push(e_model)) == cd_seq_len(models(entries@))
                + e_model.total_len());
            if rest_res is Ok {
                let rest = rest_res->Ok_0;
                assert(models(entries@) + (seq![e_model] + rest) =~= models(entries@).push(e_model)
                    + rest);
            }
        }
        pos = pos + esize;
        entries.push(entry);
        i = i + 1;
    }
    proof {
        assert(spec_parse_cd(d@, pos as int, 0) == Ok::<Seq<CdEntryModel>, ZipError>(
            Seq::empty(),
        ));
        assert(models(entries@) + Seq::<CdEntryModel>::empty() =~= models(entries@));
        lemma_cd_seq_len_nonneg(models(entries@));
    }
    if pos - start != size_of_cdr as usize {
        return Err(ZipError::CentralDirectorySizeMismatch);
    }
    Ok(entries)
}

} // verus!

//! The archive aggregate: owns the source bytes, the EOCD entity and the
//! eagerly parsed central directory, and resolves local file headers lazily,
//! per entry, on demand.

use vstd::prelude::*;
use crate::central::{models, cd_seq_len, spec_parse_cd, read_central_directory, lemma_parse_cd_ok_len, lemma_parse_cd_err_kinds};
use crate::eocd::{is_eocd_at, is_true_eocd, lemma_true_eocd_unique, find_eocd, EofRecord};
use crate::errors::ZipError;
use crate::bytes::copy_range;
use crate::local::{spec_parse_local, read_local_header, local_payload_range};
use crate::records::{CentralDirectoryFileHeader, CdEntryModel, EndOfCentralDirectoryRecord, LocalFileHeader, LocalModel, eocd_fixed_at, decode_eocd};

verus! {

/// A read-only ZIP archive: the raw source bytes, the EOCD found by the
/// backward scan, and the central directory entries in disk order.
/// Construction is atomic: either the EOCD and the whole central directory
/// parse and agree, or no archive is returned at all. Local file headers are
/// not resolved at construction; a bad entry surfaces only when it is asked
/// for, and leaves the other entries usable.
pub struct ZipArchive {
    data: Vec<u8>,
    eof_record: EofRecord,
    central_records: Vec<CentralDirectoryFileHeader>,
}

impl ZipArchive {
    /// The archive's source bytes.
    pub closed spec fn spec_data(self) -> Seq<u8> {
        self.data@
    }

    /// The fixed EOCD body the archive was anchored on.
    pub closed spec fn spec_eocd(self) -> EndOfCentralDirectoryRecord {
        self.eof_record.static_data
    }

    /// Where the EOCD starts in the source.
    pub closed spec fn spec_eocd_start(self) -> int {
        self.eof_record.start_offset as int
    }

    /// The EOCD's trailing comment bytes.
    pub closed spec fn spec_comment(self) -> Seq<u8> {
        self.eof_record.comment@
    }

    /// The models of the archive's central directory entries, in disk order.
    pub closed spec fn spec_entries(self) -> Seq<CdEntryModel> {
        models(self.central_records@)
    }

    /// The archive is internally consistent: its EOCD is the rightmost
    /// length-consistent record of the source and was decoded from there, the
    /// comment is the rest of the source, and the central directory parses
    /// from the EOCD's recorded offset into exactly the entries held, whose
    /// total encoded size is the EOCD's `size_of_cdr`.
    pub open spec fn wf(self) -> bool {
        &&& is_true_eocd(self.spec_data(), self.spec_eocd_start())
        &&& self.spec_eocd() == eocd_fixed_at(self.spec_data(), self.spec_eocd_start())
        &&& self.spec_comment() == self.spec_data().subrange(
            self.spec_eocd_start() + 22,
            self.spec_data().len() as int,
        )
        &&& spec_parse_cd(
            self.spec_data(),
            self.spec_eocd().offset_cdr_start as int,
            self.spec_eocd().total_cdr as nat,
        ) == Ok::<Seq<CdEntryModel>, ZipError>(self.spec_entries())
        &&& cd_seq_len(self.spec_entries()) == self.spec_eocd().size_of_cdr as int
    }

    /// Opens an archive over an in-memory byte source: locates the EOCD by
    /// the backward scan, reads its comment, and eagerly parses the whole
    /// central directory. Succeeds if and only if a length-consistent EOCD
    /// exists and the central directory at its recorded offset parses with
    /// the recorded size; the first failure is returned and no partial
    /// archive ever is.
    pub fn open(data: Vec<u8>) -> (r: Result<ZipArchive, ZipError>)
        ensures
            (r matches Err(e) && e == ZipError::EocdNotFound) <==> (forall|off: int|
                !is_eocd_at(data@, off)),
            data@.len() < 22 ==> r == Err::<ZipArchive, ZipError>(ZipError::EocdNotFound),
            r matches Ok(a) ==> a.wf() && a.spec_data() == data@,
            forall|off: int| #[trigger] is_true_eocd(data@, off) ==> ({
                let eocd = eocd_fixed_at(data@, off);
                let parsed = spec_parse_cd(data@, eocd.offset_cdr_start as int, eocd.total_cdr as nat);
                match r {
                    Ok(a) => a.spec_eocd_start() == off,
                    Err(e) => match parsed {
                        Ok(es) => e == ZipError::CentralDirectorySizeMismatch && cd_seq_len(es)
                            != eocd.size_of_cdr as int,
                        Err(pe) => e == pe,
                    },
                }
            }),
    {
        let located = match find_eocd(&data) {
            Ok(o) => o,
            Err(e) => {
                return Err(e);
            },
        };
        // binding the length shows the verifier that the offsets fit in usize
        let len = data.len();
        let static_data = decode_eocd(&data, located);
        let comment = copy_range(&data, located + 22, static_data.comment_length as usize);
        let eof_record = EofRecord {
            static_data,
            start_offset: located,
            end_offset: located + 22,
            comment,
        };
        let central_records = match read_central_directory(
            &data,
            static_data.offset_cdr_start,
            static_data.size_of_cdr,
            static_data.total_cdr,
        ) {
            Ok(v) => v,
            Err(e) => {
                proof {
                    assert forall|off: int| #[trigger] is_true_eocd(data@, off) implies off
                        == located as int by {
                        lemma_true_eocd_unique(data@, off, located as int);
                    }
                    if spec_parse_cd(
                        data@,
                        static_data.offset_cdr_start as int,
                        static_data.total_cdr as nat,
                    ) is Err {
                        lemma_parse_cd_err_kinds(
                            data@,
                            static_data.offset_cdr_start as int,
                            static_data.total_cdr as nat,
                        );
                    }
                }
                return Err(e);
            },
        };
        let archive = ZipArchive { data, eof_record, central_records };
        proof {
            assert forall|off: int| #[trigger] is_true_eocd(archive.spec_data(), off) implies off
                == located as int by {
                lemma_true_eocd_unique(archive.spec_data(), off, located as int);
            }
            assert(archive.spec_comment() =~= archive.spec_data().subrange(
                located as int + 22,
                archive.spec_data().len() as int,
            ));
        }
        Ok(archive)
    }

    /// How many entries the archive holds; for a well-formed archive this is
    /// exactly the EOCD's `total_cdr` count.
    pub fn entry_count(&self) -> (r: usize)
        ensures
            r as int == self.spec_entries().len(),
            self.wf() ==> r as int == self.spec_eocd().total_cdr as int,
    {
        proof {
            if self.wf() {
                lemma_parse_cd_ok_len(
                    self.spec_data(),
                    self.spec_eocd().offset_cdr_start as int,
                    self.spec_eocd().total_cdr as nat,
                );
            }
        }
        self.central_records.len()
    }

    /// Read-only view of the central directory entries, in disk order.
    pub fn entries(&self) -> (r: &Vec<CentralDirectoryFileHeader>)
        ensures
            models(r@) == self.spec_entries(),
    {
        &self.central_records
    }

    /// The EOCD entity the archive was anchored on.
    pub fn eof_record(&self) -> (r: &EofRecord)
        ensures
            r.static_data == self.spec_eocd(),
            r.start_offset as int == self.spec_eocd_start(),
            r.comment@ == self.spec_comment(),
    {
        &self.eof_record
    }

    /// Resolves the local file header of entry `index` from its recorded
    /// offset, payload bytes included. The failure of one entry says nothing
    /// about the others.
    pub fn local_header(&self, index: usize) -> (r: Result<LocalFileHeader, ZipError>)
        requires
            index < self.spec_entries().len(),
        ensures
            ({
                let off = self.spec_entries()[index as int].relative_offset_localheader as int;
                let parsed = spec_parse_local(self.spec_data(), off);
                match r {
                    Ok(h) => parsed == Ok::<LocalModel, ZipError>(h@),
                    Err(e) => parsed == Err::<LocalModel, ZipError>(e),
                }
            }),
    {
        let offset = self.central_records[index].relative_offset_localheader as usize;
        read_local_header(&self.data, offset)
    }

    /// The payload window of entry `index`: the absolute offset and length of
    /// its raw (still compressed) bytes inside the source, without copying
    /// them.
    pub fn payload_range(&self, index: usize) -> (r: Result<(usize, usize), ZipError>)
        requires
            index < self.spec_entries().len(),
        ensures
            ({
                let off = self.spec_entries()[index as int].relative_offset_localheader as int;
                let parsed = spec_parse_local(self.spec_data(), off);
                match r {
                    Ok((start, length)) => parsed matches Ok(h) && start as int == off + 30
                        + h.file_name_length + h.extra_field_length && length as int
                        == h.compressed_size as int && start + length <= self.spec_data().len(),
                    Err(e) => parsed == Err::<LocalModel, ZipError>(e),
                }
            }),
    {
        let offset = self.central_records[index].relative_offset_localheader as usize;
        local_payload_range(&self.data, offset)
    }

    /// Copies the raw payload bytes of entry `index`, after checking that the
    /// entry's compression method is one this reader recognises: stored (0)
    /// or DEFLATE (8). The bytes are returned as they stand in the archive,
    /// not decompressed.
    pub fn payload_bytes(&self, index: usize) -> (r: Result<Vec<u8>, ZipError>)
        requires
            index < self.spec_entries().len(),
        ensures
            ({
                let off = self.spec_entries()[index as int].relative_offset_localheader as int;
                let parsed = spec_parse_local(self.spec_data(), off);
                match r {
                    Ok(b) => parsed matches Ok(h) && (h.compression_method == 0
                        || h.compression_method == 8) && b@ == h.compressed_data,
                    Err(e) => match parsed {
                        Ok(h) => !(h.compression_method == 0 || h.compression_method == 8) && e
                            == ZipError::UnsupportedCompressionMethod,
                        Err(pe) => e == pe,
                    },
                }
            }),
    {
        let header = match self.local_header(index) {
            Ok(h) => h,
            Err(e) => {
                return Err(e);
            },
        };
        if header.compression_method != 0 && header.compression_method != 8 {
            return Err(ZipError::UnsupportedCompressionMethod);
        }
        Ok(header.compressed_data)
    }
}

/// Every well-formed archive holds exactly as many central directory entries
/// as its EOCD's `total_cdr` field declares.
pub proof fn lemma_entry_count_matches_eocd(a: ZipArchive)
    requires
        a.wf(),
    ensures
        a.spec_entries().len() == a.spec_eocd().total_cdr as int,
{
    lemma_parse_cd_ok_len(
        a.spec_data(),
        a.spec_eocd().offset_cdr_start as int,
        a.spec_eocd().total_cdr as nat,
    );
}

/// A well-formed archive whose EOCD declares zero entries exposes an empty
/// entry sequence, whatever its central directory offset and size fields
/// hold.
pub proof fn lemma_zero_entries_archive_is_empty(a: ZipArchive)
    requires
        a.wf(),
        a.spec_eocd().total_cdr == 0,
    ensures
        a.spec_entries().len() == 0,
{
    lemma_entry_count_matches_eocd(a);
}

} // verus!

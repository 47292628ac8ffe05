//! The three fixed-layout record families of a ZIP archive, their
//! mathematical models, and the field-by-field codec between records and
//! little-endian byte buffers.

use vstd::prelude::*;
use crate::bytes::{spec_u16_le, spec_u32_le, read_u16_le, read_u32_le, push_u16_le, push_u32_le, push_bytes, copy_range};

verus! {

/// Signature of the End Of Central Directory record.
pub const EOCD_MAGIC: u32 = 0x06054b50;

/// Signature of a Central Directory File Header.
pub const CDR_MAGIC: u32 = 0x02014b50;

/// Signature of a Local File Header.
pub const LOCAL_MAGIC: u32 = 0x04034b50;

/// Fixed 22-byte body of the End Of Central Directory record, which anchors
/// the whole archive's metadata. Field order is the record's byte layout.
#[derive(Clone, Copy, Debug, PartialEq, Eq, Structural)]
pub struct EndOfCentralDirectoryRecord {
    pub magic_number: u32,
    pub number_of_current_disk: u16,
    pub disk_where_cdr_starts: u16,
    pub num_cdr_on_disk: u16,
    pub total_cdr: u16,
    pub size_of_cdr: u32,
    pub offset_cdr_start: u32,
    pub comment_length: u16,
}

/// The record decoded from the 22 bytes of `d` that start at `off`.
pub open spec fn eocd_fixed_at(d: Seq<u8>, off: int) -> EndOfCentralDirectoryRecord {
    EndOfCentralDirectoryRecord {
        magic_number: spec_u32_le(d, off),
        number_of_current_disk: spec_u16_le(d, off + 4),
        disk_where_cdr_starts: spec_u16_le(d, off + 6),
        num_cdr_on_disk: spec_u16_le(d, off + 8),
        total_cdr: spec_u16_le(d, off + 10),
        size_of_cdr: spec_u32_le(d, off + 12),
        offset_cdr_start: spec_u32_le(d, off + 16),
        comment_length: spec_u16_le(d, off + 20),
    }
}

impl EndOfCentralDirectoryRecord {
    /// A fresh record carrying the EOCD signature and zero in every other
    /// field.
    pub fn new() -> (r: EndOfCentralDirectoryRecord)
        ensures
            r.magic_number == EOCD_MAGIC,
            r.number_of_current_disk == 0,
            r.disk_where_cdr_starts == 0,
            r.num_cdr_on_disk == 0,
            r.total_cdr == 0,
            r.size_of_cdr == 0,
            r.offset_cdr_start == 0,
            r.comment_length == 0,
    {
        EndOfCentralDirectoryRecord {
            magic_number: 0x06054b50,
            number_of_current_disk: 0,
            disk_where_cdr_starts: 0,
            num_cdr_on_disk: 0,
            total_cdr: 0,
            size_of_cdr: 0,
            offset_cdr_start: 0,
            comment_length: 0,
        }
    }

    /// Decodes the fixed body at `offset_starting` into `self`, field by
    /// field, and returns the offset just past it. Fails with
    /// `MalformedRecord`, leaving `self` unchanged, when fewer than 22 bytes
    /// remain.
    pub fn load_data(&mut self, d: &Vec<u8>, offset_starting: usize) -> (r: Result<
        usize,
        crate::errors::ZipError,
    >)
        ensures
            offset_starting + 22 > d@.len() ==> r == Err::<usize, crate::errors::ZipError>(
                crate::errors::ZipError::MalformedRecord,
            ) && *final(self) == *old(self),
            offset_starting + 22 <= d@.len() ==> r == Ok::<usize, crate::errors::ZipError>(
                (offset_starting + 22) as usize,
            ) && *final(self) == eocd_fixed_at(d@, offset_starting as int),
    {
        if d.len() < 22 || offset_starting > d.len() - 22 {
            return Err(crate::errors::ZipError::MalformedRecord);
        }
        let decoded = decode_eocd(d, offset_starting);
        *self = decoded;
        Ok(offset_starting + 22)
    }
}

/// Decodes the fixed 22-byte EOCD body at `off`.
pub fn decode_eocd(d: &Vec<u8>, off: usize) -> (r: EndOfCentralDirectoryRecord)
    requires
        off + 22 <= d@.len(),
    ensures
        r == eocd_fixed_at(d@, off as int),
{
    // binding the length shows the verifier that the offsets fit in usize
    let n = d.len();
    EndOfCentralDirectoryRecord {
        magic_number: read_u32_le(d, off),
        number_of_current_disk: read_u16_le(d, off + 4),
        disk_where_cdr_starts: read_u16_le(d, off + 6),
        num_cdr_on_disk: read_u16_le(d, off + 8),
        total_cdr: read_u16_le(d, off + 10),
        size_of_cdr: read_u32_le(d, off + 12),
        offset_cdr_start: read_u32_le(d, off + 16),
        comment_length: read_u16_le(d, off + 20),
    }
}

/// Encodes the fixed EOCD body followed by its comment. The output decodes
/// back to `*e`, so encoding then decoding is the identity on the record.
pub fn encode_eocd(e: &EndOfCentralDirectoryRecord, comment: &Vec<u8>) -> (r: Vec<u8>)
    requires
        e.comment_length as int == comment@.len(),
    ensures
        r@.len() == 22 + comment@.len(),
        eocd_fixed_at(r@, 0) == *e,
        r@.subrange(22, r@.len() as int) == comment@,
{
    let mut r: Vec<u8> = Vec::new();
    push_u32_le(&mut r, e.magic_number);
    push_u16_le(&mut r, e.number_of_current_disk);
    push_u16_le(&mut r, e.disk_where_cdr_starts);
    push_u16_le(&mut r, e.num_cdr_on_disk);
    push_u16_le(&mut r, e.total_cdr);
    push_u32_le(&mut r, e.size_of_cdr);
    push_u32_le(&mut r, e.offset_cdr_start);
    push_u16_le(&mut r, e.comment_length);
    push_bytes(&mut r, comment);
    proof {
        assert(r@.subrange(22, r@.len() as int) =~= comment@);
    }
    r
}

/// Fixed 46-byte body of a Central Directory File Header, followed in the
/// archive by its three variable-length trailing fields, which this struct
/// owns. Fixed-field order is the record's byte layout.
#[derive(Clone, Debug)]
pub struct CentralDirectoryFileHeader {
    pub magic_number: u32,
    pub version_made_by: u16,
    pub version_needed: u16,
    pub spacer_unused: u16,
    pub compression_method: u16,
    pub last_modify_time: u16,
    pub last_modify_date: u16,
    pub crc32_uncompressed: u32,
    pub compressed_size: u32,
    pub uncompressed_size: u32,
    pub file_name_length: u16,
    pub extra_field_length: u16,
    pub file_comment_length: u16,
    pub disk_number_source: u16,
    pub internal_file_attributes: u16,
    pub external_file_attributes: u32,
    pub relative_offset_localheader: u32,
    pub file_name: Vec<u8>,
    pub extra_field: Vec<u8>,
    pub file_comment: Vec<u8>,
}

/// Mathematical model of a central directory entry.
#[verifier::ext_equal]
pub ghost struct CdEntryModel {
    pub magic_number: u32,
    pub version_made_by: u16,
    pub version_needed: u16,
    pub spacer_unused: u16,
    pub compression_method: u16,
    pub last_modify_time: u16,
    pub last_modify_date: u16,
    pub crc32_uncompressed: u32,
    pub compressed_size: u32,
    pub uncompressed_size: u32,
    pub file_name_length: u16,
    pub extra_field_length: u16,
    pub file_comment_length: u16,
    pub disk_number_source: u16,
    pub internal_file_attributes: u16,
    pub external_file_attributes: u32,
    pub relative_offset_localheader: u32,
    pub file_name: Seq<u8>,
    pub extra_field: Seq<u8>,
    pub file_comment: Seq<u8>,
}

impl View for CentralDirectoryFileHeader {
    type V = CdEntryModel;

    open spec fn view(&self) -> CdEntryModel {
        CdEntryModel {
            magic_number: self.magic_number,
            version_made_by: self.version_made_by,
            version_needed: self.version_needed,
            spacer_unused: self.spacer_unused,
            compression_method: self.compression_method,
            last_modify_time: self.last_modify_time,
            last_modify_date: self.last_modify_date,
            crc32_uncompressed: self.crc32_uncompressed,
            compressed_size: self.compressed_size,
            uncompressed_size: self.uncompressed_size,
            file_name_length: self.file_name_length,
            extra_field_length: self.extra_field_length,
            file_comment_length: self.file_comment_length,
            disk_number_source: self.disk_number_source,
            internal_file_attributes: self.internal_file_attributes,
            external_file_attributes: self.external_file_attributes,
            relative_offset_localheader: self.relative_offset_localheader,
            file_name: self.file_name@,
            extra_field: self.extra_field@,
            file_comment: self.file_comment@,
        }
    }
}

impl CdEntryModel {
    /// The entry's trailing buffers are exactly as large as its three length
    /// fields declare.
    pub open spec fn wf(self) -> bool {
        &&& self.file_name.len() == self.file_name_length as int
        &&& self.extra_field.len() == self.extra_field_length as int
        &&& self.file_comment.len() == self.file_comment_length as int
    }

    /// Number of bytes the entry occupies in the central directory.
    pub open spec fn total_len(self) -> int {
        46 + self.file_name.len() as int + self.extra_field.len() as int + self.file_comment.len() as int
    }
}

/// The central directory entry decoded from `d` starting at `off`: the 17
/// fixed fields, then name, extra and comment buffers sized by the three
/// decoded length fields.
pub open spec fn spec_decode_cdr(d: Seq<u8>, off: int) -> CdEntryModel {
    let n = spec_u16_le(d, off + 28) as int;
    let m = spec_u16_le(d, off + 30) as int;
    let k = spec_u16_le(d, off + 32) as int;
    CdEntryModel {
        magic_number: spec_u32_le(d, off),
        version_made_by: spec_u16_le(d, off + 4),
        version_needed: spec_u16_le(d, off + 6),
        spacer_unused: spec_u16_le(d, off + 8),
        compression_method: spec_u16_le(d, off + 10),
        last_modify_time: spec_u16_le(d, off + 12),
        last_modify_date: spec_u16_le(d, off + 14),
        crc32_uncompressed: spec_u32_le(d, off + 16),
        compressed_size: spec_u32_le(d, off + 20),
        uncompressed_size: spec_u32_le(d, off + 24),
        file_name_length: spec_u16_le(d, off + 28),
        extra_field_length: spec_u16_le(d, off + 30),
        file_comment_length: spec_u16_le(d, off + 32),
        disk_number_source: spec_u16_le(d, off + 34),
        internal_file_attributes: spec_u16_le(d, off + 36),
        external_file_attributes: spec_u32_le(d, off + 38),
        relative_offset_localheader: spec_u32_le(d, off + 42),
        file_name: d.subrange(off + 46, off + 46 + n),
        extra_field: d.subrange(off + 46 + n, off + 46 + n + m),
        file_comment: d.subrange(off + 46 + n + m, off + 46 + n + m + k),
    }
}

/// Decodes the central directory entry at `off`, fixed fields and trailing
/// buffers.
pub fn decode_cdr(d: &Vec<u8>, off: usize) -> (r: CentralDirectoryFileHeader)
    requires
        off + 46 <= d@.len(),
        off + 46 + spec_u16_le(d@, off as int + 28) + spec_u16_le(d@, off as int + 30)
            + spec_u16_le(d@, off as int + 32) <= d@.len(),
    ensures
        r@ == spec_decode_cdr(d@, off as int),
        r@.wf(),
{
    // binding the length shows the verifier that the offsets fit in usize
    let len = d.len();
    let n = read_u16_le(d, off + 28) as usize;
    let m = read_u16_le(d, off + 30) as usize;
    let k = read_u16_le(d, off + 32) as usize;
    let r = CentralDirectoryFileHeader {
        magic_number: read_u32_le(d, off),
        version_made_by: read_u16_le(d, off + 4),
        version_needed: read_u16_le(d, off + 6),
        spacer_unused: read_u16_le(d, off + 8),
        compression_method: read_u16_le(d, off + 10),
        last_modify_time: read_u16_le(d, off + 12),
        last_modify_date: read_u16_le(d, off + 14),
        crc32_uncompressed: read_u32_le(d, off + 16),
        compressed_size: read_u32_le(d, off + 20),
        uncompressed_size: read_u32_le(d, off + 24),
        file_name_length: read_u16_le(d, off + 28),
        extra_field_length: read_u16_le(d, off + 30),
        file_comment_length: read_u16_le(d, off + 32),
        disk_number_source: read_u16_le(d, off + 34),
        internal_file_attributes: read_u16_le(d, off + 36),
        external_file_attributes: read_u32_le(d, off + 38),
        relative_offset_localheader: read_u32_le(d, off + 42),
        file_name: copy_range(d, off + 46, n),
        extra_field: copy_range(d, off + 46 + n, m),
        file_comment: copy_range(d, off + 46 + n + m, k),
    };
    proof {
        assert(r@ =~= spec_decode_cdr(d@, off as int));
    }
    r
}

/// Encodes a central directory entry: the 46 fixed bytes, then name, extra
/// and comment. The output decodes back to `e`'s model, so encoding then
/// decoding is the identity on every field of a record whose buffers match
/// its length fields.
pub fn encode_cdr(e: &CentralDirectoryFileHeader) -> (r: Vec<u8>)
    requires
        e@.wf(),
    ensures
        r@.len() == e@.total_len(),
        spec_decode_cdr(r@, 0) == e@,
{
    let mut r: Vec<u8> = Vec::new();
    push_u32_le(&mut r, e.magic_number);
    push_u16_le(&mut r, e.version_made_by);
    push_u16_le(&mut r, e.version_needed);
    push_u16_le(&mut r, e.spacer_unused);
    push_u16_le(&mut r, e.compression_method);
    push_u16_le(&mut r, e.last_modify_time);
    push_u16_le(&mut r, e.last_modify_date);
    push_u32_le(&mut r, e.crc32_uncompressed);
    push_u32_le(&mut r, e.compressed_size);
    push_u32_le(&mut r, e.uncompressed_size);
    push_u16_le(&mut r, e.file_name_length);
    push_u16_le(&mut r, e.extra_field_length);
    push_u16_le(&mut r, e.file_comment_length);
    push_u16_le(&mut r, e.disk_number_source);
    push_u16_le(&mut r, e.internal_file_attributes);
    push_u32_le(&mut r, e.external_file_attributes);
    push_u32_le(&mut r, e.relative_offset_localheader);
    push_bytes(&mut r, &e.file_name);
    push_bytes(&mut r, &e.extra_field);
    push_bytes(&mut r, &e.file_comment);
    proof {
        let n = e@.file_name.len() as int;
        let m = e@.extra_field.len() as int;
        let k = e@.file_comment.len() as int;
        assert(r@.subrange(46, 46 + n) =~= e@.file_name);
        assert(r@.subrange(46 + n, 46 + n + m) =~= e@.extra_field);
        assert(r@.subrange(46 + n + m, 46 + n + m + k) =~= e@.file_comment);
        assert(spec_decode_cdr(r@, 0) =~= e@);
    }
    r
}

/// Fixed 30-byte body of a Local File Header, followed in the archive by its
/// name and extra field, then by `compressed_size` bytes of payload, which
/// this struct owns as raw (still compressed) bytes. Fixed-field order is the
/// record's byte layout.
#[derive(Clone, Debug)]
pub struct LocalFileHeader {
    pub magic_number: u32,
    pub version_needed: u16,
    pub spacer_unused: u16,
    pub compression_method: u16,
    pub last_modify_time: u16,
    pub last_modify_date: u16,
    pub crc32_uncompressed: u32,
    pub compressed_size: u32,
    pub uncompressed_size: u32,
    pub file_name_length: u16,
    pub extra_field_length: u16,
    pub file_name: Vec<u8>,
    pub extra_field: Vec<u8>,
    pub compressed_data: Vec<u8>,
}

/// Mathematical model of a local file header and its payload.
#[verifier::ext_equal]
pub ghost struct LocalModel {
    pub magic_number: u32,
    pub version_needed: u16,
    pub spacer_unused: u16,
    pub compression_method: u16,
    pub last_modify_time: u16,
    pub last_modify_date: u16,
    pub crc32_uncompressed: u32,
    pub compressed_size: u32,
    pub uncompressed_size: u32,
    pub file_name_length: u16,
    pub extra_field_length: u16,
    pub file_name: Seq<u8>,
    pub extra_field: Seq<u8>,
    pub compressed_data: Seq<u8>,
}

impl View for LocalFileHeader {
    type V = LocalModel;

    open spec fn view(&self) -> LocalModel {
        LocalModel {
            magic_number: self.magic_number,
            version_needed: self.version_needed,
            spacer_unused: self.spacer_unused,
            compression_method: self.compression_method,
            last_modify_time: self.last_modify_time,
            last_modify_date: self.last_modify_date,
            crc32_uncompressed: self.crc32_uncompressed,
            compressed_size: self.compressed_size,
            uncompressed_size: self.uncompressed_size,
            file_name_length: self.file_name_length,
            extra_field_length: self.extra_field_length,
            file_name: self.file_name@,
            extra_field: self.extra_field@,
            compressed_data: self.compressed_data@,
        }
    }
}

impl LocalModel {
    /// The trailing buffers match the length fields, and the payload is
    /// exactly `compressed_size` bytes long.
    pub open spec fn wf(self) -> bool {
        &&& self.file_name.len() == self.file_name_length as int
        &&& self.extra_field.len() == self.extra_field_length as int
        &&& self.compressed_data.len() == self.compressed_size as int
    }
}

/// The local file header decoded from `d` starting at `off`: the 11 fixed
/// fields, then name and extra buffers sized by the decoded length fields,
/// then `compressed_size` payload bytes.
pub open spec fn spec_decode_local(d: Seq<u8>, off: int) -> LocalModel {
    let n = spec_u16_le(d, off + 26) as int;
    let m = spec_u16_le(d, off + 28) as int;
    let c = spec_u32_le(d, off + 18) as int;
    LocalModel {
        magic_number: spec_u32_le(d, off),
        version_needed: spec_u16_le(d, off + 4),
        spacer_unused: spec_u16_le(d, off + 6),
        compression_method: spec_u16_le(d, off + 8),
        last_modify_time: spec_u16_le(d, off + 10),
        last_modify_date: spec_u16_le(d, off + 12),
        crc32_uncompressed: spec_u32_le(d, off + 14),
        compressed_size: spec_u32_le(d, off + 18),
        uncompressed_size: spec_u32_le(d, off + 22),
        file_name_length: spec_u16_le(d, off + 26),
        extra_field_length: spec_u16_le(d, off + 28),
        file_name: d.subrange(off + 30, off + 30 + n),
        extra_field: d.subrange(off + 30 + n, off + 30 + n + m),
        compressed_data: d.subrange(off + 30 + n + m, off + 30 + n + m + c),
    }
}

/// Decodes the local file header at `off`, fixed fields, trailing buffers and
/// payload bytes.
pub fn decode_local(d: &Vec<u8>, off: usize) -> (r: LocalFileHeader)
    requires
        off + 30 <= d@.len(),
        off + 30 + spec_u16_le(d@, off as int + 26) + spec_u16_le(d@, off as int + 28)
            + spec_u32_le(d@, off as int + 18) <= d@.len(),
    ensures
        r@ == spec_decode_local(d@, off as int),
        r@.wf(),
{
    // binding the length shows the verifier that the offsets fit in usize
    let len = d.len();
    let n = read_u16_le(d, off + 26) as usize;
    let m = read_u16_le(d, off + 28) as usize;
    let c = read_u32_le(d, off + 18) as usize;
    let r = LocalFileHeader {
        magic_number: read_u32_le(d, off),
        version_needed: read_u16_le(d, off + 4),
        spacer_unused: read_u16_le(d, off + 6),
        compression_method: read_u16_le(d, off + 8),
        last_modify_time: read_u16_le(d, off + 10),
        last_modify_date: read_u16_le(d, off + 12),
        crc32_uncompressed: read_u32_le(d, off + 14),
        compressed_size: read_u32_le(d, off + 18),
        uncompressed_size: read_u32_le(d, off + 22),
        file_name_length: read_u16_le(d, off + 26),
        extra_field_length: read_u16_le(d, off + 28),
        file_name: copy_range(d, off + 30, n),
        extra_field: copy_range(d, off + 30 + n, m),
        compressed_data: copy_range(d, off + 30 + n + m, c),
    };
    proof {
        assert(r@ =~= spec_decode_local(d@, off as int));
    }
    r
}

/// Encodes a local file header: the 30 fixed bytes, then name, extra and
/// payload. The output decodes back to `e`'s model, so encoding then decoding
/// is the identity on every field of a record whose buffers match its length
/// and size fields.
pub fn encode_local(e: &LocalFileHeader) -> (r: Vec<u8>)
    requires
        e@.wf(),
    ensures
        r@.len() == 30 + e@.file_name.len() + e@.extra_field.len() + e@.compressed_data.len(),
        spec_decode_local(r@, 0) == e@,
{
    let mut r: Vec<u8> = Vec::new();
    push_u32_le(&mut r, e.magic_number);
    push_u16_le(&mut r, e.version_needed);
    push_u16_le(&mut r, e.spacer_unused);
    push_u16_le(&mut r, e.compression_method);
    push_u16_le(&mut r, e.last_modify_time);
    push_u16_le(&mut r, e.last_modify_date);
    push_u32_le(&mut r, e.crc32_uncompressed);
    push_u32_le(&mut r, e.compressed_size);
    push_u32_le(&mut r, e.uncompressed_size);
    push_u16_le(&mut r, e.file_name_length);
    push_u16_le(&mut r, e.extra_field_length);
    push_bytes(&mut r, &e.file_name);
    push_bytes(&mut r, &e.extra_field);
    push_bytes(&mut r, &e.compressed_data);
    proof {
        let n = e@.file_name.len() as int;
        let m = e@.extra_field.len() as int;
        let c = e@.compressed_data.len() as int;
        assert(r@.subrange(30, 30 + n) =~= e@.file_name);
        assert(r@.subrange(30 + n, 30 + n + m) =~= e@.extra_field);
        assert(r@.subrange(30 + n + m, 30 + n + m + c) =~= e@.compressed_data);
        assert(spec_decode_local(r@, 0) =~= e@);
    }
    r
}

} // verus!

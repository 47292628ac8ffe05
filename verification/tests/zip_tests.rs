use ziparchive::archive::ZipArchive;
use ziparchive::eocd::{find_eocd, EofRecord};
use ziparchive::errors::ZipError;
use ziparchive::records::{
    decode_cdr, decode_eocd, decode_local, encode_cdr, encode_eocd, encode_local,
    CentralDirectoryFileHeader, EndOfCentralDirectoryRecord, LocalFileHeader,
};

fn eocd_record(total: u16, size_of_cdr: u32, offset_cdr_start: u32, comment_length: u16) -> EndOfCentralDirectoryRecord {
    EndOfCentralDirectoryRecord {
        magic_number: 0x06054b50,
        number_of_current_disk: 0,
        disk_where_cdr_starts: 0,
        num_cdr_on_disk: total,
        total_cdr: total,
        size_of_cdr,
        offset_cdr_start,
        comment_length,
    }
}

fn cd_entry(name: &[u8], method: u16, size: u32, offset: u32) -> CentralDirectoryFileHeader {
    CentralDirectoryFileHeader {
        magic_number: 0x02014b50,
        version_made_by: 20,
        version_needed: 20,
        spacer_unused: 0,
        compression_method: method,
        last_modify_time: 0x6000,
        last_modify_date: 0x5000,
        crc32_uncompressed: 0x3610a686,
        compressed_size: size,
        uncompressed_size: size,
        file_name_length: name.len() as u16,
        extra_field_length: 0,
        file_comment_length: 0,
        disk_number_source: 0,
        internal_file_attributes: 0,
        external_file_attributes: 0,
        relative_offset_localheader: offset,
        file_name: name.to_vec(),
        extra_field: Vec::new(),
        file_comment: Vec::new(),
    }
}

fn local_entry(name: &[u8], method: u16, payload: &[u8]) -> LocalFileHeader {
    LocalFileHeader {
        magic_number: 0x04034b50,
        version_needed: 20,
        spacer_unused: 0,
        compression_method: method,
        last_modify_time: 0x6000,
        last_modify_date: 0x5000,
        crc32_uncompressed: 0x3610a686,
        compressed_size: payload.len() as u32,
        uncompressed_size: payload.len() as u32,
        file_name_length: name.len() as u16,
        extra_field_length: 0,
        file_name: name.to_vec(),
        extra_field: Vec::new(),
        compressed_data: payload.to_vec(),
    }
}

/// One stored entry named "a.txt" holding "hello": local header, one central
/// directory entry, then the EOCD.
fn one_entry_archive(method: u16) -> Vec<u8> {
    let mut bytes = encode_local(&local_entry(b"a.txt", method, b"hello"));
    let local_len = bytes.len() as u32;
    let cd = encode_cdr(&cd_entry(b"a.txt", method, 5, 0));
    let cd_len = cd.len() as u32;
    bytes.extend(cd);
    bytes.extend(encode_eocd(&eocd_record(1, cd_len, local_len, 0), &Vec::new()));
    bytes
}

#[test]
fn minimal_empty_archive_opens() {
    // EOCD signature followed by 18 zero bytes: disks, counts, sizes, offset
    // and comment length all zero.
    let mut bytes = vec![0x50u8, 0x4b, 0x05, 0x06];
    bytes.extend(std::iter::repeat(0u8).take(18));
    let archive = ZipArchive::open(bytes).unwrap();
    assert_eq!(archive.entry_count(), 0);
    assert_eq!(archive.entries().len(), 0);
}

#[test]
fn entry_count_matches_total_cdr() {
    let first = encode_cdr(&cd_entry(b"a.txt", 0, 3, 0));
    let second = encode_cdr(&cd_entry(b"b.txt", 0, 4, 100));
    let mut bytes = Vec::new();
    bytes.extend(first);
    bytes.extend(second);
    let cd_len = bytes.len() as u32;
    bytes.extend(encode_eocd(&eocd_record(2, cd_len, 0, 0), &Vec::new()));
    let archive = ZipArchive::open(bytes).unwrap();
    assert_eq!(archive.entry_count(), 2);
    assert_eq!(archive.entries()[0].file_name, b"a.txt".to_vec());
    assert_eq!(archive.entries()[1].file_name, b"b.txt".to_vec());
}

#[test]
fn decoy_signature_in_comment_is_skipped() {
    // The comment opens with the exact EOCD signature, but the decoy's
    // recorded comment length is inconsistent with the source's end, so the
    // scan must settle on the true record at offset zero.
    let mut comment = vec![0x50u8, 0x4b, 0x05, 0x06];
    comment.extend(std::iter::repeat(0u8).take(26));
    let bytes = encode_eocd(&eocd_record(0, 0, 0, 30), &comment);
    assert_eq!(find_eocd(&bytes), Ok(0));
    let archive = ZipArchive::open(bytes).unwrap();
    assert_eq!(archive.eof_record().start_offset, 0);
    assert_eq!(archive.eof_record().comment, comment);
}

#[test]
fn comment_content_does_not_move_eocd() {
    let plain = encode_eocd(&eocd_record(0, 0, 0, 30), &vec![7u8; 30]);
    let other = encode_eocd(&eocd_record(0, 0, 0, 30), &vec![9u8; 30]);
    assert_eq!(find_eocd(&plain), Ok(0));
    assert_eq!(find_eocd(&other), Ok(0));
}

#[test]
fn cdr_roundtrip_preserves_every_field() {
    let original = cd_entry(b"name.bin", 8, 0x01020304, 0xa0b0c0d0);
    let bytes = encode_cdr(&original);
    let decoded = decode_cdr(&bytes, 0);
    assert_eq!(decoded.magic_number, original.magic_number);
    assert_eq!(decoded.version_made_by, original.version_made_by);
    assert_eq!(decoded.version_needed, original.version_needed);
    assert_eq!(decoded.spacer_unused, original.spacer_unused);
    assert_eq!(decoded.compression_method, original.compression_method);
    assert_eq!(decoded.last_modify_time, original.last_modify_time);
    assert_eq!(decoded.last_modify_date, original.last_modify_date);
    assert_eq!(decoded.crc32_uncompressed, original.crc32_uncompressed);
    assert_eq!(decoded.compressed_size, original.compressed_size);
    assert_eq!(decoded.uncompressed_size, original.uncompressed_size);
    assert_eq!(decoded.file_name_length, original.file_name_length);
    assert_eq!(decoded.extra_field_length, original.extra_field_length);
    assert_eq!(decoded.file_comment_length, original.file_comment_length);
    assert_eq!(decoded.disk_number_source, original.disk_number_source);
    assert_eq!(decoded.internal_file_attributes, original.internal_file_attributes);
    assert_eq!(decoded.external_file_attributes, original.external_file_attributes);
    assert_eq!(decoded.relative_offset_localheader, original.relative_offset_localheader);
    assert_eq!(decoded.file_name, original.file_name);
    assert_eq!(decoded.extra_field, original.extra_field);
    assert_eq!(decoded.file_comment, original.file_comment);
}

#[test]
fn local_roundtrip_preserves_every_field() {
    let original = local_entry(b"data.txt", 0, b"payload");
    let bytes = encode_local(&original);
    let decoded = decode_local(&bytes, 0);
    assert_eq!(decoded.magic_number, original.magic_number);
    assert_eq!(decoded.version_needed, original.version_needed);
    assert_eq!(decoded.spacer_unused, original.spacer_unused);
    assert_eq!(decoded.compression_method, original.compression_method);
    assert_eq!(decoded.last_modify_time, original.last_modify_time);
    assert_eq!(decoded.last_modify_date, original.last_modify_date);
    assert_eq!(decoded.crc32_uncompressed, original.crc32_uncompressed);
    assert_eq!(decoded.compressed_size, original.compressed_size);
    assert_eq!(decoded.uncompressed_size, original.uncompressed_size);
    assert_eq!(decoded.file_name_length, original.file_name_length);
    assert_eq!(decoded.extra_field_length, original.extra_field_length);
    assert_eq!(decoded.file_name, original.file_name);
    assert_eq!(decoded.extra_field, original.extra_field);
    assert_eq!(decoded.compressed_data, original.compressed_data);
}

#[test]
fn eocd_roundtrip_preserves_every_field() {
    let original = eocd_record(3, 153, 120, 0);
    let bytes = encode_eocd(&original, &Vec::new());
    let decoded = decode_eocd(&bytes, 0);
    assert_eq!(decoded, original);
}

#[test]
fn fresh_eocd_record_is_zeroed() {
    let r = EndOfCentralDirectoryRecord::new();
    assert_eq!(r.magic_number, 0x06054b50);
    assert_eq!(r.total_cdr, 0);
    assert_eq!(r.size_of_cdr, 0);
    assert_eq!(r.offset_cdr_start, 0);
    assert_eq!(r.comment_length, 0);
}

#[test]
fn zero_entries_with_nonzero_offset_yields_empty_entries() {
    // `offset_cdr_start` need not be zero for an empty archive; the entry
    // sequence is empty either way.
    let mut bytes = vec![0xaau8; 7];
    bytes.extend(encode_eocd(&eocd_record(0, 0, 7, 0), &Vec::new()));
    let archive = ZipArchive::open(bytes).unwrap();
    assert_eq!(archive.entry_count(), 0);
    assert_eq!(archive.entries().len(), 0);
}

#[test]
fn short_sources_yield_eocd_not_found() {
    assert_eq!(ZipArchive::open(Vec::new()).err(), Some(ZipError::EocdNotFound));
    assert_eq!(ZipArchive::open(vec![0u8; 5]).err(), Some(ZipError::EocdNotFound));
    assert_eq!(ZipArchive::open(vec![0x50u8; 21]).err(), Some(ZipError::EocdNotFound));
}

#[test]
fn inconsistent_comment_length_yields_eocd_not_found() {
    // The signature is present, but the recorded comment length claims bytes
    // past the end of the source.
    let mut bytes = vec![0x50u8, 0x4b, 0x05, 0x06];
    bytes.extend(std::iter::repeat(0u8).take(16));
    bytes.extend(vec![3u8, 0u8]);
    assert_eq!(find_eocd(&bytes), Err(ZipError::EocdNotFound));
    assert_eq!(ZipArchive::open(bytes).err(), Some(ZipError::EocdNotFound));
}

#[test]
fn stored_entry_exposes_its_payload() {
    let bytes = one_entry_archive(0);
    let archive = ZipArchive::open(bytes.clone()).unwrap();
    assert_eq!(archive.entry_count(), 1);
    let header = archive.local_header(0).unwrap();
    assert_eq!(header.compression_method, 0);
    assert_eq!(header.compressed_size, 5);
    assert_eq!(header.uncompressed_size, 5);
    assert_eq!(header.file_name, b"a.txt".to_vec());
    assert_eq!(header.compressed_data, b"hello".to_vec());
    let (offset, length) = archive.payload_range(0).unwrap();
    assert_eq!(length, 5);
    assert_eq!(&bytes[offset..offset + length], b"hello");
    assert_eq!(archive.payload_bytes(0).unwrap(), b"hello".to_vec());
}

#[test]
fn shortened_size_of_cdr_is_a_size_mismatch() {
    let mut bytes = encode_local(&local_entry(b"a.txt", 0, b"hello"));
    let local_len = bytes.len() as u32;
    let cd = encode_cdr(&cd_entry(b"a.txt", 0, 5, 0));
    let cd_len = cd.len() as u32;
    bytes.extend(cd);
    // The EOCD understates the central directory's size by one byte.
    bytes.extend(encode_eocd(&eocd_record(1, cd_len - 1, local_len, 0), &Vec::new()));
    assert_eq!(ZipArchive::open(bytes).err(), Some(ZipError::CentralDirectorySizeMismatch));
}

#[test]
fn local_offset_past_end_of_file_is_out_of_range() {
    let cd = encode_cdr(&cd_entry(b"a.txt", 0, 5, 9999));
    let cd_len = cd.len() as u32;
    let mut bytes = cd;
    bytes.extend(encode_eocd(&eocd_record(1, cd_len, 0, 0), &Vec::new()));
    // Opening succeeds: the central directory parses without resolving local
    // headers.
    let archive = ZipArchive::open(bytes).unwrap();
    assert_eq!(archive.entry_count(), 1);
    assert_eq!(archive.local_header(0).err(), Some(ZipError::OffsetOutOfRange));
    assert_eq!(archive.payload_range(0).err(), Some(ZipError::OffsetOutOfRange));
}

#[test]
fn payload_past_end_of_file_is_out_of_range() {
    // The local header itself fits, but its declared compressed size claims
    // bytes past the end of the source.
    let mut local = encode_local(&local_entry(b"a.txt", 0, b"hello"));
    local[18] = 200;  // compressed_size low byte, now larger than the source
    let local_len = local.len() as u32;
    let cd = encode_cdr(&cd_entry(b"a.txt", 0, 5, 0));
    let cd_len = cd.len() as u32;
    let mut bytes = local;
    bytes.extend(cd);
    bytes.extend(encode_eocd(&eocd_record(1, cd_len, local_len, 0), &Vec::new()));
    let archive = ZipArchive::open(bytes).unwrap();
    assert_eq!(archive.local_header(0).err(), Some(ZipError::OffsetOutOfRange));
}

#[test]
fn corrupt_central_magic_is_reported() {
    let mut cd = encode_cdr(&cd_entry(b"a.txt", 0, 5, 0));
    cd[0] = 0xff;
    let cd_len = cd.len() as u32;
    let mut bytes = cd;
    bytes.extend(encode_eocd(&eocd_record(1, cd_len, 0, 0), &Vec::new()));
    assert_eq!(ZipArchive::open(bytes).err(), Some(ZipError::BadCentralDirectoryMagic));
}

#[test]
fn truncated_central_directory_is_reported() {
    // The EOCD claims one entry starting where fewer than 46 bytes remain.
    let bytes = encode_eocd(&eocd_record(1, 46, 2, 0), &Vec::new());
    assert_eq!(ZipArchive::open(bytes).err(), Some(ZipError::TruncatedCentralDirectory));
}

#[test]
fn corrupt_local_magic_is_reported() {
    let mut bytes = one_entry_archive(0);
    bytes[0] = 0xff;
    let archive = ZipArchive::open(bytes).unwrap();
    assert_eq!(archive.local_header(0).err(), Some(ZipError::BadLocalHeaderMagic));
}

#[test]
fn unsupported_compression_method_is_reported_on_copy() {
    let bytes = one_entry_archive(99);
    let archive = ZipArchive::open(bytes).unwrap();
    // The header itself resolves; only copying the raw bytes insists on a
    // known method.
    assert!(archive.local_header(0).is_ok());
    assert_eq!(archive.payload_bytes(0).err(), Some(ZipError::UnsupportedCompressionMethod));
}

#[test]
fn deflate_method_passes_the_copy_check() {
    let bytes = one_entry_archive(8);
    let archive = ZipArchive::open(bytes).unwrap();
    assert_eq!(archive.payload_bytes(0).unwrap(), b"hello".to_vec());
}

#[test]
fn eof_record_reports_truncated_comment() {
    let eocd = eocd_record(0, 0, 0, 5);
    let mut bytes = Vec::new();
    bytes.extend(encode_eocd(&eocd, &vec![1u8; 5]));
    bytes.truncate(24);  // cut the comment short
    assert_eq!(EofRecord::new(&bytes, 0).err(), Some(ZipError::TruncatedComment));
}

#[test]
fn eof_record_parses_body_and_comment() {
    let bytes = encode_eocd(&eocd_record(0, 0, 0, 3), &vec![9u8, 8u8, 7u8]);
    let record = EofRecord::new(&bytes, 0).unwrap();
    assert_eq!(record.start_offset, 0);
    assert_eq!(record.end_offset, 22);
    assert_eq!(record.static_data.comment_length, 3);
    assert_eq!(record.comment, vec![9u8, 8u8, 7u8]);
}

#[test]
fn load_data_rejects_short_buffer() {
    let mut record = EndOfCentralDirectoryRecord::new();
    let bytes = vec![0u8; 10];
    assert_eq!(record.load_data(&bytes, 0).err(), Some(ZipError::MalformedRecord));
    assert_eq!(record.total_cdr, 0);
}

#[test]
fn load_data_decodes_in_place() {
    let source = eocd_record(4, 200, 77, 0);
    let bytes = encode_eocd(&source, &Vec::new());
    let mut record = EndOfCentralDirectoryRecord::new();
    assert_eq!(record.load_data(&bytes, 0), Ok(22));
    assert_eq!(record, source);
}

#[test]
fn raw_wire_format_bytes_parse() {
    // The same one-entry archive written out by hand, byte for byte, against
    // the wire format: local header, central directory entry, EOCD.
    let mut bytes: Vec<u8> = Vec::new();
    // local file header at offset 0
    bytes.extend([0x50, 0x4b, 0x03, 0x04]); // signature
    bytes.extend([0x14, 0x00]); // version needed
    bytes.extend([0x00, 0x00]); // flags
    bytes.extend([0x00, 0x00]); // method: stored
    bytes.extend([0x00, 0x60]); // time
    bytes.extend([0x00, 0x50]); // date
    bytes.extend([0x86, 0xa6, 0x10, 0x36]); // crc-32
    bytes.extend([0x05, 0x00, 0x00, 0x00]); // compressed size
    bytes.extend([0x05, 0x00, 0x00, 0x00]); // uncompressed size
    bytes.extend([0x05, 0x00]); // name length
    bytes.extend([0x00, 0x00]); // extra length
    bytes.extend(b"a.txt");
    bytes.extend(b"hello");
    // central directory entry at offset 40
    bytes.extend([0x50, 0x4b, 0x01, 0x02]); // signature
    bytes.extend([0x14, 0x00]); // version made by
    bytes.extend([0x14, 0x00]); // version needed
    bytes.extend([0x00, 0x00]); // flags
    bytes.extend([0x00, 0x00]); // method: stored
    bytes.extend([0x00, 0x60]); // time
    bytes.extend([0x00, 0x50]); // date
    bytes.extend([0x86, 0xa6, 0x10, 0x36]); // crc-32
    bytes.extend([0x05, 0x00, 0x00, 0x00]); // compressed size
    bytes.extend([0x05, 0x00, 0x00, 0x00]); // uncompressed size
    bytes.extend([0x05, 0x00]); // name length
    bytes.extend([0x00, 0x00]); // extra length
    bytes.extend([0x00, 0x00]); // comment length
    bytes.extend([0x00, 0x00]); // disk number
    bytes.extend([0x00, 0x00]); // internal attributes
    bytes.extend([0x00, 0x00, 0x00, 0x00]); // external attributes
    bytes.extend([0x00, 0x00, 0x00, 0x00]); // local header offset
    bytes.extend(b"a.txt");
    // EOCD at offset 91
    bytes.extend([0x50, 0x4b, 0x05, 0x06]); // signature
    bytes.extend([0x00, 0x00]); // this disk
    bytes.extend([0x00, 0x00]); // central directory disk
    bytes.extend([0x01, 0x00]); // entries on this disk
    bytes.extend([0x01, 0x00]); // entries in total
    bytes.extend([0x33, 0x00, 0x00, 0x00]); // central directory size: 51
    bytes.extend([0x28, 0x00, 0x00, 0x00]); // central directory offset: 40
    bytes.extend([0x00, 0x00]); // comment length

    // The hand-written bytes must equal what the codec emits.
    assert_eq!(bytes, one_entry_archive(0));

    let archive = ZipArchive::open(bytes.clone()).unwrap();
    assert_eq!(archive.entry_count(), 1);
    assert_eq!(archive.eof_record().start_offset, 91);
    let entry = &archive.entries()[0];
    assert_eq!(entry.file_name, b"a.txt".to_vec());
    assert_eq!(entry.compressed_size, 5);
    assert_eq!(entry.crc32_uncompressed, 0x3610a686);
    let header = archive.local_header(0).unwrap();
    assert_eq!(header.compressed_data, b"hello".to_vec());
    let (offset, length) = archive.payload_range(0).unwrap();
    assert_eq!((offset, length), (35, 5));
    assert_eq!(&bytes[offset..offset + length], b"hello");
}

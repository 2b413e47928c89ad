//! End-to-end decoding tests over synthetic archive bytes.

use anet_dat::archive::{AnetArchive, AnetDatHeader, AnetMftEntry, AnetMftHeader};
use anet_dat::le::{push_u16_le, push_u32_le, push_u64_le};
use anet_dat::reconcile::AnetIdEntry;
use anet_dat::ArchiveError;

/// Bytes of an archive whose header is the concrete scenario layout:
/// version 1, magic 41 4E 1A, zeros, mft_offset 64; at 64 an MFT header with
/// `num_entries` followed by the given entries, then the raw id pairs at
/// `table_off`.
fn synth_archive(entries: &[AnetMftEntry], pairs: &[(u32, u32)], total_len: usize) -> Vec<u8> {
    let mut data = Vec::new();
    data.push(1u8);
    data.push(0x41u8);
    data.push(0x4eu8);
    data.push(0x1au8);
    for _ in 0..5 {
        push_u32_le(&mut data, 0);
    }
    push_u64_le(&mut data, 64);
    push_u32_le(&mut data, 0);
    push_u32_le(&mut data, 0);
    assert_eq!(data.len(), 40);
    while data.len() < 64 {
        data.push(0u8);
    }
    // MFT header: 4-byte identifier, 8 reserved, entry count, 8 reserved.
    data.push(0x4du8);
    data.push(0x66u8);
    data.push(0x74u8);
    data.push(0x1au8);
    push_u64_le(&mut data, 0);
    push_u32_le(&mut data, entries.len() as u32);
    push_u64_le(&mut data, 0);
    for e in entries {
        push_u64_le(&mut data, e.offset);
        push_u32_le(&mut data, e.size);
        push_u16_le(&mut data, e.compression_flag);
        push_u16_le(&mut data, e.entry_flag);
        push_u32_le(&mut data, e.counter);
        push_u32_le(&mut data, e.crc);
    }
    for (file_id, base_id) in pairs {
        push_u32_le(&mut data, *file_id);
        push_u32_le(&mut data, *base_id);
    }
    while data.len() < total_len {
        data.push(0u8);
    }
    data
}

fn entry(offset: u64, size: u32) -> AnetMftEntry {
    AnetMftEntry {
        offset,
        size,
        compression_flag: 0,
        entry_flag: 1,
        counter: 0,
        crc: 0,
    }
}

#[test]
fn header_decodes_concrete_scenario() {
    // Exactly the documented header bytes: version 1, magic, five zero
    // fields, mft_offset = 0x40, then zero mft_size and flags.
    let mut data = vec![0x01u8, 0x41, 0x4e, 0x1a];
    for _ in 0..20 {
        data.push(0u8);
    }
    data.extend_from_slice(&[0x40, 0, 0, 0, 0, 0, 0, 0]);
    for _ in 0..8 {
        data.push(0u8);
    }
    assert_eq!(data.len(), 40);
    let h = AnetArchive::read_header(&data).unwrap();
    assert_eq!(h.version, 1);
    assert_eq!(h.identifier, vec![0x41u8, 0x4e, 0x1a]);
    assert_eq!(h.header_size, 0);
    assert_eq!(h.mft_offset, 64);
    assert_eq!(h.mft_size, 0);
    assert_eq!(h.flags, 0);
}

#[test]
fn concrete_scenario_reduction() {
    // num_entries = 2, id table of two pairs (file 5, base 0) and
    // (file 0, base 5): executing the documented reduction, the first pair
    // assigns slot 0's base_id; the second pair's key 5 is no position of a
    // two-slot index, so the load reports the out-of-range key.
    let entries = [entry(0, 0), entry(136, 16)];
    let data = synth_archive(&entries, &[(5, 0), (0, 5)], 0);
    assert_eq!(data.len(), 152);
    let r = AnetArchive::load_from_reader(&data);
    assert!(matches!(r, Err(ArchiveError::IndexError)));
}

#[test]
fn concrete_scenario_reduction_with_room() {
    // The same two pairs folded into an index wide enough for key 5: the
    // first pair leaves slot 0 at (base 5, file 0); the second assigns
    // file_id 0 to slot 5's base_id, which keeps slot 5 unassigned.
    let entries = [
        entry(0, 0),
        entry(232, 16),
        entry(0, 0),
        entry(0, 0),
        entry(0, 0),
        entry(0, 0),
    ];
    let data = synth_archive(&entries, &[(5, 0), (0, 5)], 0);
    let a = AnetArchive::load_from_reader(&data).unwrap();
    assert_eq!(a.mft_index_data.len(), 6);
    assert_eq!(a.mft_index_data[0], AnetIdEntry { file_id: 0, base_id: 5 });
    assert_eq!(a.mft_index_data[5], AnetIdEntry { file_id: 0, base_id: 0 });
}

#[test]
fn full_load_round_trip() {
    let entries = [entry(300, 7), entry(136, 8)];
    let data = synth_archive(&entries, &[(9, 0)], 400);
    let a = AnetArchive::load_from_reader(&data).unwrap();
    assert_eq!(a.dat_header.version, 1);
    assert_eq!(a.dat_header.identifier, vec![0x41u8, 0x4e, 0x1a]);
    assert_eq!(a.dat_header.mft_offset, 64);
    assert_eq!(a.mft_header.identifier, vec![0x4du8, 0x66, 0x74, 0x1a]);
    assert_eq!(a.mft_header.num_entries, 2);
    assert_eq!(a.mft_data.len(), 2);
    assert_eq!(a.mft_data[0], entry(300, 7));
    assert_eq!(a.mft_data[1], entry(136, 8));
    assert_eq!(a.mft_index_data.len(), 2);
    assert_eq!(a.mft_index_data[0], AnetIdEntry { file_id: 0, base_id: 9 });
}

#[test]
fn dat_header_encode_decode() {
    let h = AnetDatHeader {
        version: 3,
        identifier: vec![0x41, 0x4e, 0x1a],
        header_size: 40,
        unknown_field: 11,
        chunk_size: 0x10000,
        crc: 0xdeadbeef,
        unknown_field_2: 22,
        mft_offset: 0x1234_5678_9abc,
        mft_size: 96,
        flags: 7,
    };
    let bytes = h.encode();
    assert_eq!(bytes.len(), 40);
    let back = AnetArchive::read_header(&bytes).unwrap();
    assert_eq!(back.version, h.version);
    assert_eq!(back.identifier, h.identifier);
    assert_eq!(back.header_size, h.header_size);
    assert_eq!(back.unknown_field, h.unknown_field);
    assert_eq!(back.chunk_size, h.chunk_size);
    assert_eq!(back.crc, h.crc);
    assert_eq!(back.unknown_field_2, h.unknown_field_2);
    assert_eq!(back.mft_offset, h.mft_offset);
    assert_eq!(back.mft_size, h.mft_size);
    assert_eq!(back.flags, h.flags);
}

#[test]
fn mft_header_encode_decode() {
    let m = AnetMftHeader {
        identifier: vec![0x4d, 0x66, 0x74, 0x1a],
        unknown_field: 5,
        num_entries: 1234,
        unknown_field_2: 6,
    };
    let bytes = m.encode();
    assert_eq!(bytes.len(), 24);
    let back = AnetArchive::read_mft_header(&bytes, 0).unwrap();
    assert_eq!(back.identifier, m.identifier);
    assert_eq!(back.unknown_field, m.unknown_field);
    assert_eq!(back.num_entries, m.num_entries);
    assert_eq!(back.unknown_field_2, m.unknown_field_2);
}

#[test]
fn mft_entry_encode_decode() {
    let e = AnetMftEntry {
        offset: 0xaabb_ccdd_eeff,
        size: 0x0102_0304,
        compression_flag: 8,
        entry_flag: 1,
        counter: 42,
        crc: 0x55aa55aa,
    };
    let mut bytes = e.encode();
    assert_eq!(bytes.len(), 24);
    // A header-less table: decode it as the single record after a synthetic
    // MFT header at offset 0.
    let mut data = AnetMftHeader {
        identifier: vec![0, 0, 0, 0],
        unknown_field: 0,
        num_entries: 1,
        unknown_field_2: 0,
    }
    .encode();
    data.append(&mut bytes);
    let es = AnetArchive::read_mft_data(&data, 0, 1).unwrap();
    assert_eq!(es.len(), 1);
    assert_eq!(es[0], e);
}

#[test]
fn bad_magic_yields_format_error() {
    let mut data = vec![0x01u8, 0x42, 0x4e, 0x1a];
    for _ in 0..36 {
        data.push(0xffu8);
    }
    assert!(matches!(
        AnetArchive::read_header(&data),
        Err(ArchiveError::FormatError)
    ));
    assert!(matches!(
        AnetArchive::load_from_reader(&data),
        Err(ArchiveError::FormatError)
    ));
    // Any other field values still give the same recoverable error.
    let mut data2 = vec![0x07u8, 0x41, 0x4e, 0x00];
    for i in 0..36 {
        data2.push(i as u8);
    }
    assert!(matches!(
        AnetArchive::read_header(&data2),
        Err(ArchiveError::FormatError)
    ));
}

#[test]
fn truncated_header_yields_io_error() {
    let data = vec![0x01u8, 0x41, 0x4e, 0x1a, 0, 0];
    assert!(matches!(
        AnetArchive::read_header(&data),
        Err(ArchiveError::IoError)
    ));
    assert!(matches!(
        AnetArchive::load_from_reader(&data),
        Err(ArchiveError::IoError)
    ));
}

#[test]
fn mft_offset_beyond_end_yields_io_error() {
    let mut data = vec![0x01u8, 0x41, 0x4e, 0x1a];
    for _ in 0..20 {
        data.push(0u8);
    }
    push_u64_le(&mut data, 0x10_0000);
    push_u32_le(&mut data, 0);
    push_u32_le(&mut data, 0);
    assert!(matches!(
        AnetArchive::load_from_reader(&data),
        Err(ArchiveError::IoError)
    ));
}

#[test]
fn truncated_entry_table_yields_io_error() {
    // The MFT header announces more records than the source holds.
    let entries = [entry(0, 0), entry(136, 8)];
    let mut data = synth_archive(&entries, &[], 0);
    // Overwrite num_entries (at 64 + 12) with a count past the end.
    data[76] = 0xff;
    assert!(matches!(
        AnetArchive::load_from_reader(&data),
        Err(ArchiveError::IoError)
    ));
}

#[test]
fn id_table_beyond_end_yields_io_error() {
    let entries = [entry(0, 0), entry(5000, 16)];
    let data = synth_archive(&entries, &[], 0);
    assert!(matches!(
        AnetArchive::load_from_reader(&data),
        Err(ArchiveError::IoError)
    ));
}

#[test]
fn zero_entries_archive() {
    // num_entries = 0: the entry table decodes empty, and the reconciler
    // detects that the conventional id-table position does not exist instead
    // of indexing out of bounds.
    let data = synth_archive(&[], &[], 0);
    let es = AnetArchive::read_mft_data(&data, 64, 0).unwrap();
    assert_eq!(es.len(), 0);
    assert!(matches!(
        AnetArchive::read_mft_index(&data, &es),
        Err(ArchiveError::IndexError)
    ));
    assert!(matches!(
        AnetArchive::load_from_reader(&data),
        Err(ArchiveError::IndexError)
    ));
}

#[test]
fn fetch_entry_bytes() {
    // Entry 0 points at 7 known bytes; the fetch returns exactly those.
    let entries = [entry(300, 7), entry(136, 8)];
    let mut data = synth_archive(&entries, &[(9, 0)], 300);
    data.extend_from_slice(&[10, 20, 30, 40, 50, 60, 70]);
    let a = AnetArchive::load_from_reader(&data).unwrap();
    let d = a.get_mft_data(&data, 0).unwrap();
    assert_eq!(d, vec![10u8, 20, 30, 40, 50, 60, 70]);
    // An index at or past the entry count is rejected.
    assert!(matches!(a.get_mft_data(&data, 2), Err(ArchiveError::IndexError)));
    assert!(matches!(a.get_mft_data(&data, 99), Err(ArchiveError::IndexError)));
}

#[test]
fn fetch_short_source_yields_io_error() {
    let entries = [entry(1000, 50), entry(136, 8)];
    let data = synth_archive(&entries, &[(9, 0)], 200);
    let a = AnetArchive::load_from_reader(&data).unwrap();
    assert!(matches!(a.get_mft_data(&data, 0), Err(ArchiveError::IoError)));
    assert!(matches!(
        AnetArchive::mft_read_data(&data, 199, 2),
        Err(ArchiveError::IoError)
    ));
    let tail = AnetArchive::mft_read_data(&data, 198, 2).unwrap();
    assert_eq!(tail.len(), 2);
}

#[test]
fn mft_entry_encode_layout() {
    // The exact little-endian byte layout of one entry record.
    let e = AnetMftEntry {
        offset: 0xaabb_ccdd_eeff,
        size: 0x0102_0304,
        compression_flag: 8,
        entry_flag: 1,
        counter: 42,
        crc: 0x55aa_55aa,
    };
    let bytes = e.encode();
    assert_eq!(
        bytes,
        vec![
            0xffu8, 0xee, 0xdd, 0xcc, 0xbb, 0xaa, 0x00, 0x00, // offset
            0x04, 0x03, 0x02, 0x01, // size
            0x08, 0x00, // compression_flag
            0x01, 0x00, // entry_flag
            0x2a, 0x00, 0x00, 0x00, // counter
            0xaa, 0x55, 0xaa, 0x55, // crc
        ]
    );
}

#[test]
fn id_table_size_rounds_down_to_whole_pairs() {
    // The id-table entry announces 12 bytes: only one whole 8-byte pair is
    // read; the trailing 4 bytes are ignored.
    let entries = [entry(0, 0), entry(136, 12)];
    let data = synth_archive(&entries, &[(9, 0)], 148);
    let a = AnetArchive::load_from_reader(&data).unwrap();
    assert_eq!(a.mft_index_data.len(), 2);
    assert_eq!(a.mft_index_data[0], AnetIdEntry { file_id: 0, base_id: 9 });
    assert_eq!(a.mft_index_data[1], AnetIdEntry { file_id: 0, base_id: 0 });
}

//! Archive decoding: the fixed-size archive header, the master file table
//! (MFT), the derived file-id index, and the on-demand entry fetch.

use vstd::prelude::*;

use crate::ArchiveError;
use crate::le::{
    push_u16_le, push_u32_le, push_u64_le, read_u16_at, read_u32_at, read_u64_at, read_u8_at,
    u16_le, u32_le, u64_le,
};
use crate::reconcile::{
    initial_slots, pairs_in_bounds, reconcile_id_pairs, reconcile_spec, AnetIdEntry,
};

verus! {

/// Size in bytes of the archive (dat) header.
pub const DAT_HEADER_SIZE: usize = 40;

/// Size in bytes of the MFT header.
pub const MFT_HEADER_SIZE: usize = 24;

/// Size in bytes of one MFT entry record.
pub const MFT_ENTRY_SIZE: usize = 24;

/// Size in bytes of one raw id-pair record.
pub const ID_PAIR_SIZE: usize = 8;

/// By convention, the MFT entry at this position holds the raw id table.
pub const MFT_ENTRY_INDEX_NUM: usize = 1;

/// The three bytes of the archive header magic.
pub const DAT_MAGIC_0: u8 = 0x41;

pub const DAT_MAGIC_1: u8 = 0x4e;

pub const DAT_MAGIC_2: u8 = 0x1a;

/// The fixed-size header at the start of the archive.
#[derive(Debug, Default)]
pub struct AnetDatHeader {
    pub version: u8,
    pub identifier: Vec<u8>,
    pub header_size: u32,
    pub unknown_field: u32,
    pub chunk_size: u32,
    pub crc: u32,
    pub unknown_field_2: u32,
    pub mft_offset: u64,
    pub mft_size: u32,
    pub flags: u32,
}

/// The header of the master file table, at `mft_offset`.
#[derive(Debug, Default)]
pub struct AnetMftHeader {
    pub identifier: Vec<u8>,
    pub unknown_field: u64,
    pub num_entries: u32,
    pub unknown_field_2: u64,
}

/// One fixed-size MFT entry record.
#[derive(Clone, Copy, Debug, Default, PartialEq, Eq, Structural)]
pub struct AnetMftEntry {
    pub offset: u64,
    pub size: u32,
    pub compression_flag: u16,
    pub entry_flag: u16,
    pub counter: u32,
    pub crc: u32,
}

/// The in-memory picture of a loaded archive.
#[derive(Debug, Default)]
pub struct AnetArchive {
    pub dat_header: AnetDatHeader,
    pub mft_header: AnetMftHeader,
    pub mft_data: Vec<AnetMftEntry>,
    pub mft_index_data: Vec<AnetIdEntry>,
}

/// The archive header magic bytes stand at positions 1 to 3.
pub open spec fn magic_ok(s: Seq<u8>) -> bool {
    s[1] == DAT_MAGIC_0 && s[2] == DAT_MAGIC_1 && s[3] == DAT_MAGIC_2
}

/// `h` holds exactly the fields of the archive header laid out at the start
/// of `s`.
pub open spec fn dat_header_matches(h: AnetDatHeader, s: Seq<u8>) -> bool {
    &&& h.version == s[0]
    &&& h.identifier@ == s.subrange(1, 4)
    &&& h.header_size == u32_le(s, 4)
    &&& h.unknown_field == u32_le(s, 8)
    &&& h.chunk_size == u32_le(s, 12)
    &&& h.crc == u32_le(s, 16)
    &&& h.unknown_field_2 == u32_le(s, 20)
    &&& h.mft_offset == u64_le(s, 24)
    &&& h.mft_size == u32_le(s, 32)
    &&& h.flags == u32_le(s, 36)
}

/// `m` holds exactly the fields of the MFT header laid out at `off` in `s`.
pub open spec fn mft_header_matches(m: AnetMftHeader, s: Seq<u8>, off: int) -> bool {
    &&& m.identifier@ == s.subrange(off, off + 4)
    &&& m.unknown_field == u64_le(s, off + 4)
    &&& m.num_entries == u32_le(s, off + 12)
    &&& m.unknown_field_2 == u64_le(s, off + 16)
}

/// The MFT entry record laid out at `off` in `s`.
pub open spec fn parse_entry(s: Seq<u8>, off: int) -> AnetMftEntry {
    AnetMftEntry {
        offset: u64_le(s, off) as u64,
        size: u32_le(s, off + 8) as u32,
        compression_flag: u16_le(s, off + 12) as u16,
        entry_flag: u16_le(s, off + 14) as u16,
        counter: u32_le(s, off + 16) as u32,
        crc: u32_le(s, off + 20) as u32,
    }
}

/// The `n` consecutive MFT entry records starting at `off` in `s`.
pub open spec fn parse_entries(s: Seq<u8>, off: int, n: nat) -> Seq<AnetMftEntry> {
    Seq::new(n, |i: int| parse_entry(s, off + MFT_ENTRY_SIZE * i))
}

/// The `n` consecutive raw id-pair records starting at `off` in `s`.
pub open spec fn parse_id_pairs(s: Seq<u8>, off: int, n: nat) -> Seq<AnetIdEntry> {
    Seq::new(
        n,
        |i: int| AnetIdEntry {
            file_id: u32_le(s, off + ID_PAIR_SIZE * i) as u32,
            base_id: u32_le(s, off + ID_PAIR_SIZE * i + 4) as u32,
        },
    )
}

/// The archive is long enough to hold its header.
pub open spec fn header_len_ok(s: Seq<u8>) -> bool {
    s.len() >= DAT_HEADER_SIZE
}

/// Where the header says the MFT stands.
pub open spec fn spec_mft_offset(s: Seq<u8>) -> int {
    u64_le(s, 24)
}

/// The MFT header lies within the archive.
pub open spec fn mft_header_region_ok(s: Seq<u8>) -> bool {
    spec_mft_offset(s) + MFT_HEADER_SIZE <= s.len()
}

/// How many MFT entries the MFT header announces.
pub open spec fn spec_num_entries(s: Seq<u8>) -> int {
    u32_le(s, spec_mft_offset(s) + 12)
}

/// All announced MFT entry records lie within the archive.
pub open spec fn mft_entries_region_ok(s: Seq<u8>) -> bool {
    spec_mft_offset(s) + MFT_HEADER_SIZE + MFT_ENTRY_SIZE * spec_num_entries(s) <= s.len()
}

/// The MFT entry records of the archive.
pub open spec fn spec_entries(s: Seq<u8>) -> Seq<AnetMftEntry> {
    parse_entries(s, spec_mft_offset(s) + MFT_HEADER_SIZE, spec_num_entries(s) as nat)
}

/// The MFT has an entry at the conventional id-table position.
pub open spec fn id_table_entry_ok(s: Seq<u8>) -> bool {
    spec_num_entries(s) > MFT_ENTRY_INDEX_NUM
}

/// Where the raw id table stands in the archive.
pub open spec fn spec_id_table_off(s: Seq<u8>) -> int {
    spec_entries(s)[MFT_ENTRY_INDEX_NUM as int].offset as int
}

/// How many whole id-pair records the id-table entry holds.
pub open spec fn spec_id_pair_count(s: Seq<u8>) -> int {
    (spec_entries(s)[MFT_ENTRY_INDEX_NUM as int].size / ID_PAIR_SIZE as u32) as int
}

/// The raw id table lies within the archive.
pub open spec fn id_table_region_ok(s: Seq<u8>) -> bool {
    spec_id_table_off(s) + ID_PAIR_SIZE * spec_id_pair_count(s) <= s.len()
}

/// The raw id-pair records of the archive.
pub open spec fn spec_id_pairs(s: Seq<u8>) -> Seq<AnetIdEntry> {
    parse_id_pairs(s, spec_id_table_off(s), spec_id_pair_count(s) as nat)
}

/// Every raw pair's base_id addresses a slot of the file-id index.
pub open spec fn id_keys_ok(s: Seq<u8>) -> bool {
    pairs_in_bounds(spec_id_pairs(s), spec_num_entries(s))
}

/// The archive bytes decode in full.
pub open spec fn load_ok(s: Seq<u8>) -> bool {
    &&& header_len_ok(s)
    &&& magic_ok(s)
    &&& mft_header_region_ok(s)
    &&& mft_entries_region_ok(s)
    &&& id_table_entry_ok(s)
    &&& id_table_region_ok(s)
    &&& id_keys_ok(s)
}

/// The error that loading the archive bytes reports: the first decoding step
/// that cannot finish names it.
pub open spec fn load_error(s: Seq<u8>) -> ArchiveError {
    if !header_len_ok(s) {
        ArchiveError::IoError
    } else if !magic_ok(s) {
        ArchiveError::FormatError
    } else if !mft_header_region_ok(s) {
        ArchiveError::IoError
    } else if !mft_entries_region_ok(s) {
        ArchiveError::IoError
    } else if !id_table_entry_ok(s) {
        ArchiveError::IndexError
    } else if !id_table_region_ok(s) {
        ArchiveError::IoError
    } else {
        ArchiveError::IndexError
    }
}

/// The file-id index that the archive bytes resolve to.
pub open spec fn spec_resolved_index(s: Seq<u8>) -> Seq<AnetIdEntry> {
    reconcile_spec(initial_slots(spec_num_entries(s) as nat), spec_id_pairs(s))
}

/// `a` is exactly the in-memory picture of the archive bytes `s`.
pub open spec fn archive_matches(a: AnetArchive, s: Seq<u8>) -> bool {
    &&& dat_header_matches(a.dat_header, s)
    &&& mft_header_matches(a.mft_header, s, spec_mft_offset(s))
    &&& a.mft_data@ == spec_entries(s)
    &&& a.mft_index_data@ == spec_resolved_index(s)
}

/// The file name carries the `.dat` extension, compared without regard to
/// ASCII case.
pub open spec fn is_dat_name(s: Seq<u8>) -> bool {
    &&& s.len() >= 4
    &&& s[s.len() - 4] == 0x2eu8
    &&& (s[s.len() - 3] == 0x64u8 || s[s.len() - 3] == 0x44u8)
    &&& (s[s.len() - 2] == 0x61u8 || s[s.len() - 2] == 0x41u8)
    &&& (s[s.len() - 1] == 0x74u8 || s[s.len() - 1] == 0x54u8)
}

/// Checks that a file name (as bytes) ends in `.dat`, in any ASCII case;
/// a mismatched extension is a usage error, not a format error.
pub fn check_dat_extension(name: &Vec<u8>) -> (r: Result<(), ArchiveError>)
    ensures
        r is Ok <==> is_dat_name(name@),
        r is Err ==> r->Err_0 == ArchiveError::InvalidInput,
{
    let n: usize = name.len();
    if n < 4 {
        return Err(ArchiveError::InvalidInput);
    }
    let dot = name[n - 4];
    let d = name[n - 3];
    let a = name[n - 2];
    let t = name[n - 1];
    if dot == 0x2e && (d == 0x64 || d == 0x44) && (a == 0x61 || a == 0x41) && (t == 0x74 || t
        == 0x54) {
        Ok(())
    } else {
        Err(ArchiveError::InvalidInput)
    }
}

impl AnetDatHeader {
    /// Lays the header out as its fixed-size byte run, the layout that
    /// `read_header` decodes.
    pub fn encode(&self) -> (r: Vec<u8>)
        requires
            self.identifier@.len() == 3,
        ensures
            r@.len() == DAT_HEADER_SIZE,
            dat_header_matches(*self, r@),
    {
        let mut out: Vec<u8> = Vec::new();
        out.push(self.version);
        out.push(self.identifier[0]);
        out.push(self.identifier[1]);
        out.push(self.identifier[2]);
        push_u32_le(&mut out, self.header_size);
        push_u32_le(&mut out, self.unknown_field);
        push_u32_le(&mut out, self.chunk_size);
        push_u32_le(&mut out, self.crc);
        push_u32_le(&mut out, self.unknown_field_2);
        push_u64_le(&mut out, self.mft_offset);
        push_u32_le(&mut out, self.mft_size);
        push_u32_le(&mut out, self.flags);
        proof {
            assert(self.identifier@ =~= out@.subrange(1, 4));
        }
        out
    }
}

impl AnetMftHeader {
    /// Lays the MFT header out as its fixed-size byte run, the layout that
    /// `read_mft_header` decodes.
    pub fn encode(&self) -> (r: Vec<u8>)
        requires
            self.identifier@.len() == 4,
        ensures
            r@.len() == MFT_HEADER_SIZE,
            mft_header_matches(*self, r@, 0),
    {
        let mut out: Vec<u8> = Vec::new();
        out.push(self.identifier[0]);
        out.push(self.identifier[1]);
        out.push(self.identifier[2]);
        out.push(self.identifier[3]);
        push_u64_le(&mut out, self.unknown_field);
        push_u32_le(&mut out, self.num_entries);
        push_u64_le(&mut out, self.unknown_field_2);
        proof {
            assert(self.identifier@ =~= out@.subrange(0, 4));
        }
        out
    }
}

impl AnetMftEntry {
    /// Lays the entry record out as its fixed-size byte run; decoding those
    /// bytes gives the record back.
    pub fn encode(&self) -> (r: Vec<u8>)
        ensures
            r@.len() == MFT_ENTRY_SIZE,
            parse_entry(r@, 0) == *self,
    {
        let mut out: Vec<u8> = Vec::new();
        push_u64_le(&mut out, self.offset);
        push_u32_le(&mut out, self.size);
        push_u16_le(&mut out, self.compression_flag);
        push_u16_le(&mut out, self.entry_flag);
        push_u32_le(&mut out, self.counter);
        push_u32_le(&mut out, self.crc);
        out
    }
}

impl AnetIdEntry {
    /// Lays the raw id pair out as its two little-endian fields.
    pub fn encode(&self) -> (r: Vec<u8>)
        ensures
            r@.len() == ID_PAIR_SIZE,
            u32_le(r@, 0) == self.file_id,
            u32_le(r@, 4) == self.base_id,
    {
        let mut out: Vec<u8> = Vec::new();
        push_u32_le(&mut out, self.file_id);
        push_u32_le(&mut out, self.base_id);
        out
    }
}

/// Round-trip law for the archive header: the byte layout determines every
/// field, so two headers decoded from the same bytes agree, and decoding what
/// `encode` produced gives the encoded fields back.
pub proof fn lemma_dat_header_round_trip(h1: AnetDatHeader, h2: AnetDatHeader, s: Seq<u8>)
    requires
        dat_header_matches(h1, s),
        dat_header_matches(h2, s),
    ensures
        h1.version == h2.version,
        h1.identifier@ == h2.identifier@,
        h1.header_size == h2.header_size,
        h1.unknown_field == h2.unknown_field,
        h1.chunk_size == h2.chunk_size,
        h1.crc == h2.crc,
        h1.unknown_field_2 == h2.unknown_field_2,
        h1.mft_offset == h2.mft_offset,
        h1.mft_size == h2.mft_size,
        h1.flags == h2.flags,
{
}

/// Round-trip law for the MFT header, as for the archive header.
pub proof fn lemma_mft_header_round_trip(m1: AnetMftHeader, m2: AnetMftHeader, s: Seq<u8>, off: int)
    requires
        mft_header_matches(m1, s, off),
        mft_header_matches(m2, s, off),
    ensures
        m1.identifier@ == m2.identifier@,
        m1.unknown_field == m2.unknown_field,
        m1.num_entries == m2.num_entries,
        m1.unknown_field_2 == m2.unknown_field_2,
{
}

impl AnetArchive {
    /// Decodes the fixed archive header from the start of the byte source and
    /// validates its magic; a mismatched magic is a recoverable format error.
    pub fn read_header(data: &Vec<u8>) -> (r: Result<AnetDatHeader, ArchiveError>)
        ensures
            match r {
                Ok(h) => header_len_ok(data@) && magic_ok(data@) && dat_header_matches(h, data@),
                Err(ArchiveError::IoError) => !header_len_ok(data@),
                Err(ArchiveError::FormatError) => header_len_ok(data@) && !magic_ok(data@),
                Err(_) => false,
            },
    {
        let n: usize = data.len();
        if n < DAT_HEADER_SIZE {
            return Err(ArchiveError::IoError);
        }
        let version = read_u8_at(data, 0);
        let identifier = vec![data[1], data[2], data[3]];
        let header_size = read_u32_at(data, 4);
        let unknown_field = read_u32_at(data, 8);
        let chunk_size = read_u32_at(data, 12);
        let crc = read_u32_at(data, 16);
        let unknown_field_2 = read_u32_at(data, 20);
        let mft_offset = read_u64_at(data, 24);
        let mft_size = read_u32_at(data, 32);
        let flags = read_u32_at(data, 36);
        if !(identifier[0] == DAT_MAGIC_0 && identifier[1] == DAT_MAGIC_1 && identifier[2]
            == DAT_MAGIC_2) {
            return Err(ArchiveError::FormatError);
        }
        let h = AnetDatHeader {
            version,
            identifier,
            header_size,
            unknown_field,
            chunk_size,
            crc,
            unknown_field_2,
            mft_offset,
            mft_size,
            flags,
        };
        proof {
            assert(h.identifier@ =~= data@.subrange(1, 4));
        }
        Ok(h)
    }

    /// Decodes the MFT header at `mft_offset`. Its identifier is not
    /// validated, unlike the archive header's.
    pub fn read_mft_header(data: &Vec<u8>, mft_offset: u64) -> (r: Result<
        AnetMftHeader,
        ArchiveError,
    >)
        ensures
            match r {
                Ok(m) => mft_offset + MFT_HEADER_SIZE <= data@.len() && mft_header_matches(
                    m,
                    data@,
                    mft_offset as int,
                ),
                Err(ArchiveError::IoError) => mft_offset + MFT_HEADER_SIZE > data@.len(),
                Err(_) => false,
            },
    {
        let n: usize = data.len();
        if mft_offset > n as u64 || (n as u64 - mft_offset) < MFT_HEADER_SIZE as u64 {
            return Err(ArchiveError::IoError);
        }
        let off = mft_offset as usize;
        let identifier = vec![data[off], data[off + 1], data[off + 2], data[off + 3]];
        let unknown_field = read_u64_at(data, off + 4);
        let num_entries = read_u32_at(data, off + 12);
        let unknown_field_2 = read_u64_at(data, off + 16);
        let m = AnetMftHeader { identifier, unknown_field, num_entries, unknown_field_2 };
        proof {
            assert(m.identifier@ =~= data@.subrange(mft_offset as int, mft_offset + 4));
        }
        Ok(m)
    }

    /// Decodes the `num_entries` fixed-size MFT entry records that follow the
    /// MFT header, in on-disk order; their position in the returned sequence
    /// is the canonical entry index.
    pub fn read_mft_data(data: &Vec<u8>, mft_offset: u64, num_entries: u32) -> (r: Result<
        Vec<AnetMftEntry>,
        ArchiveError,
    >)
        ensures
            match r {
                Ok(es) => mft_offset + MFT_HEADER_SIZE + MFT_ENTRY_SIZE * num_entries
                    <= data@.len() && es@ == parse_entries(
                    data@,
                    mft_offset + MFT_HEADER_SIZE,
                    num_entries as nat,
                ),
                Err(ArchiveError::IoError) => mft_offset + MFT_HEADER_SIZE + MFT_ENTRY_SIZE
                    * num_entries > data@.len(),
                Err(_) => false,
            },
    {
        let n: usize = data.len();
        if mft_offset > n as u64 || (n as u64 - mft_offset) < MFT_HEADER_SIZE as u64 {
            return Err(ArchiveError::IoError);
        }
        let start = mft_offset as usize + MFT_HEADER_SIZE;
        let need = MFT_ENTRY_SIZE as u64 * num_entries as u64;
        if ((n - start) as u64) < need {
            return Err(ArchiveError::IoError);
        }
        let mut es: Vec<AnetMftEntry> = Vec::new();
        let mut i: usize = 0;
        while i < num_entries as usize
            invariant
                i <= num_entries,
                data@.len() <= usize::MAX,
                start + MFT_ENTRY_SIZE * num_entries <= data@.len(),
                start == mft_offset + MFT_HEADER_SIZE,
                es@.len() == i,
                forall|j: int|
                    0 <= j < i ==> #[trigger] es@[j] == parse_entry(
                        data@,
                        start + MFT_ENTRY_SIZE * j,
                    ),
            decreases num_entries - i,
        {
            let pos = start + MFT_ENTRY_SIZE * i;
            let e = AnetMftEntry {
                offset: read_u64_at(data, pos),
                size: read_u32_at(data, pos + 8),
                compression_flag: read_u16_at(data, pos + 12),
                entry_flag: read_u16_at(data, pos + 14),
                counter: read_u32_at(data, pos + 16),
                crc: read_u32_at(data, pos + 20),
            };
            es.push(e);
            i += 1;
        }
        proof {
            assert(es@ =~= parse_entries(data@, mft_offset + MFT_HEADER_SIZE, num_entries as nat));
        }
        Ok(es)
    }

    /// Decodes the raw id table held by the MFT entry at the conventional
    /// position and reduces it into the file-id index, one slot per MFT
    /// entry.
    pub fn read_mft_index(data: &Vec<u8>, entries: &Vec<AnetMftEntry>) -> (r: Result<
        Vec<AnetIdEntry>,
        ArchiveError,
    >)
        ensures
            ({
                let toff = entries@[MFT_ENTRY_INDEX_NUM as int].offset as int;
                let cnt = (entries@[MFT_ENTRY_INDEX_NUM as int].size / ID_PAIR_SIZE as u32) as int;
                let pairs = parse_id_pairs(data@, toff, cnt as nat);
                match r {
                    Ok(idx) => entries@.len() > MFT_ENTRY_INDEX_NUM && toff + ID_PAIR_SIZE * cnt
                        <= data@.len() && pairs_in_bounds(pairs, entries@.len() as int) && idx@
                        == reconcile_spec(initial_slots(entries@.len()), pairs),
                    Err(ArchiveError::IndexError) => entries@.len() <= MFT_ENTRY_INDEX_NUM || (toff
                        + ID_PAIR_SIZE * cnt <= data@.len() && !pairs_in_bounds(
                        pairs,
                        entries@.len() as int,
                    )),
                    Err(ArchiveError::IoError) => entries@.len() > MFT_ENTRY_INDEX_NUM && toff
                        + ID_PAIR_SIZE * cnt > data@.len(),
                    Err(_) => false,
                }
            }),
    {
        let n: usize = data.len();
        if entries.len() <= MFT_ENTRY_INDEX_NUM {
            return Err(ArchiveError::IndexError);
        }
        let table = entries[MFT_ENTRY_INDEX_NUM];
        let cnt = (table.size / ID_PAIR_SIZE as u32) as usize;
        let need = ID_PAIR_SIZE as u64 * cnt as u64;
        if table.offset > n as u64 || (n as u64 - table.offset) < need {
            return Err(ArchiveError::IoError);
        }
        let toff = table.offset as usize;
        let mut pairs: Vec<AnetIdEntry> = Vec::new();
        let mut i: usize = 0;
        while i < cnt
            invariant
                i <= cnt,
                data@.len() <= usize::MAX,
                toff + ID_PAIR_SIZE * cnt <= data@.len(),
                pairs@.len() == i,
                forall|j: int|
                    0 <= j < i ==> #[trigger] pairs@[j] == (AnetIdEntry {
                        file_id: u32_le(data@, toff + ID_PAIR_SIZE * j) as u32,
                        base_id: u32_le(data@, toff + ID_PAIR_SIZE * j + 4) as u32,
                    }),
            decreases cnt - i,
        {
            let pos = toff + ID_PAIR_SIZE * i;
            let p = AnetIdEntry {
                file_id: read_u32_at(data, pos),
                base_id: read_u32_at(data, pos + 4),
            };
            pairs.push(p);
            i += 1;
        }
        proof {
            assert(pairs@ =~= parse_id_pairs(data@, toff as int, cnt as nat));
        }
        reconcile_id_pairs(&pairs, entries.len())
    }

    /// Loads a whole archive from its bytes: header, MFT header, MFT entry
    /// records, then the reconciled file-id index. The first failing step
    /// names the error and no partial archive is exposed.
    pub fn load_from_reader(data: &Vec<u8>) -> (r: Result<AnetArchive, ArchiveError>)
        ensures
            r is Ok <==> load_ok(data@),
            r is Ok ==> archive_matches(r->Ok_0, data@),
            r is Err ==> r->Err_0 == load_error(data@),
    {
        let dat_header = match Self::read_header(data) {
            Ok(h) => h,
            Err(e) => {
                return Err(e);
            },
        };
        let mft_header = match Self::read_mft_header(data, dat_header.mft_offset) {
            Ok(m) => m,
            Err(e) => {
                return Err(e);
            },
        };
        let mft_data = match Self::read_mft_data(
            data,
            dat_header.mft_offset,
            mft_header.num_entries,
        ) {
            Ok(es) => es,
            Err(e) => {
                return Err(e);
            },
        };
        let mft_index_data = match Self::read_mft_index(data, &mft_data) {
            Ok(idx) => idx,
            Err(e) => {
                return Err(e);
            },
        };
        Ok(AnetArchive { dat_header, mft_header, mft_data, mft_index_data })
    }

    /// Returns the raw bytes of the entry at `index`: exactly its `size`
    /// bytes starting at its `offset` in the archive bytes, unmodified (the
    /// compression flag is not consulted).
    pub fn get_mft_data(&self, data: &Vec<u8>, index: usize) -> (r: Result<Vec<u8>, ArchiveError>)
        ensures
            ({
                let e = self.mft_data@[index as int];
                match r {
                    Ok(d) => index < self.mft_data@.len() && e.offset + e.size <= data@.len() && d@
                        == data@.subrange(e.offset as int, e.offset + e.size),
                    Err(ArchiveError::IndexError) => index >= self.mft_data@.len(),
                    Err(ArchiveError::IoError) => index < self.mft_data@.len() && e.offset + e.size
                        > data@.len(),
                    Err(_) => false,
                }
            }),
    {
        if index >= self.mft_data.len() {
            return Err(ArchiveError::IndexError);
        }
        let e = self.mft_data[index];
        Self::mft_read_data(data, e.offset, e.size)
    }

    /// Copies `length` bytes starting at `offset` out of the archive bytes;
    /// a short source is a recoverable read error.
    pub fn mft_read_data(data: &Vec<u8>, offset: u64, length: u32) -> (r: Result<
        Vec<u8>,
        ArchiveError,
    >)
        ensures
            match r {
                Ok(d) => offset + length <= data@.len() && d@ == data@.subrange(
                    offset as int,
                    offset + length,
                ),
                Err(ArchiveError::IoError) => offset + length > data@.len(),
                Err(_) => false,
            },
    {
        let n: usize = data.len();
        if offset > n as u64 || (n as u64 - offset) < length as u64 {
            return Err(ArchiveError::IoError);
        }
        let start = offset as usize;
        let mut d: Vec<u8> = Vec::new();
        let mut i: usize = 0;
        while i < length as usize
            invariant
                i <= length,
                data@.len() <= usize::MAX,
                start + length <= data@.len(),
                d@.len() == i,
                forall|j: int| 0 <= j < i ==> #[trigger] d@[j] == data@[start + j],
            decreases length - i,
        {
            d.push(data[start + i]);
            i += 1;
        }
        proof {
            assert(d@ =~= data@.subrange(offset as int, offset + length));
        }
        Ok(d)
    }
}

} // verus!

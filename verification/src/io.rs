use vstd::prelude::*;
use std::collections::HashMap;
use crate::bytes::{ByteReader, avail, le_u16, le_u32, le_i32, unwrap_read, partial_len};
use crate::object_type::{ObjectType, object_type_from_code};
use crate::text::{first_zero, lemma_first_zero};
use crate::error::{YetiIOError, err_view, unset_key};
use crate::metadata::{
    SegmentHeader, BigfileHeader, BigfileVersion, FileEntry, FolderEntry, YKey, file_entry_at,
    file_entry_ok, file_entry_size, folder_entry_at, folder_entry_size,
};

verus! {

broadcast use vstd::std_specs::hash::group_hash_axioms;

/// Where the bigfile header starts.
pub fn seek_to_bigfile_header(seg_header: &SegmentHeader) -> (r: u64)
    ensures
        r == seg_header.header_offset,
{
    seg_header.header_offset
}

/// Where the file table starts: 128 bytes after the bigfile header.
pub fn seek_to_file_table(seg_header: &SegmentHeader, _bf_header: &BigfileHeader) -> (r: u64)
    requires
        seg_header.header_offset + 128 <= u64::MAX,
    ensures
        r == seg_header.header_offset + 128,
{
    seg_header.header_offset + 128
}

/// Where the folder table starts: right after the file table.
pub open spec fn folder_table_pos(seg_header: SegmentHeader, bf_header: BigfileHeader) -> int {
    seg_header.header_offset + 128 + bf_header.num_files * file_entry_size(bf_header.version)
}

/// Where the folder table starts; the version `NONE` has no entry size.
pub fn seek_to_folder_table(seg_header: &SegmentHeader, bf_header: &BigfileHeader) -> (r: u64)
    requires
        bf_header.version != BigfileVersion::NONE,
        folder_table_pos(*seg_header, *bf_header) <= u64::MAX,
    ensures
        r == folder_table_pos(*seg_header, *bf_header),
{
    let size = FileEntry::struct_size(bf_header.version) as u64;
    assert(bf_header.num_files * size <= u64::MAX) by (nonlinear_arith)
        requires
            seg_header.header_offset + 128 + bf_header.num_files * size <= u64::MAX,
            seg_header.header_offset >= 0,
    ;
    seg_header.header_offset + 128u64 + bf_header.num_files as u64 * size
}

/// `n` rounded up to a multiple of eight.
pub open spec fn align8(n: int) -> int {
    if n % 8 == 0 {
        n
    } else {
        n + (8 - n % 8)
    }
}

/// Where the data of the file at `offset` starts: past both tables, aligned to eight bytes,
/// and then `offset` steps of eight bytes.
pub open spec fn file_data_pos(seg_header: SegmentHeader, bf_header: BigfileHeader, offset: u32) -> int {
    align8(folder_table_pos(seg_header, bf_header) + bf_header.num_folders * 64) + offset * 8
}

/// The folder table's position, computed without overflow.
fn folder_table_pos_wide(seg_header: &SegmentHeader, bf_header: &BigfileHeader) -> (r: u128)
    ensures
        r == folder_table_pos(*seg_header, *bf_header),
{
    let size: u128 = if bf_header.version == BigfileVersion::GRO { 100 } else { 96 };
    let n: u128 = bf_header.num_files as u128;
    assert(n * size <= 0xFFFF_FFFF * 100) by (nonlinear_arith)
        requires
            n <= 0xFFFF_FFFF,
            size <= 100,
    ;
    seg_header.header_offset as u128 + 128 + n * size
}

/// Whether the file table's position can be sought (`seek_to_file_table`).
pub fn file_table_in_range(seg_header: &SegmentHeader) -> (r: bool)
    ensures
        r == (seg_header.header_offset + 128 <= u64::MAX),
{
    seg_header.header_offset <= 0xFFFF_FFFF_FFFF_FFFF - 128
}

/// Whether the folder table's position can be sought (`seek_to_folder_table`).
pub fn folder_table_in_range(seg_header: &SegmentHeader, bf_header: &BigfileHeader) -> (r: bool)
    ensures
        r == (bf_header.version != BigfileVersion::NONE && folder_table_pos(*seg_header, *bf_header) <= u64::MAX),
{
    bf_header.version != BigfileVersion::NONE && folder_table_pos_wide(seg_header, bf_header) <= 0xFFFF_FFFF_FFFF_FFFF
}

/// Whether the position of a file's data can be computed (`file_data_position`).
pub fn file_data_in_range(seg_header: &SegmentHeader, bf_header: &BigfileHeader, entry: &FileEntry) -> (r: bool)
    ensures
        r == (bf_header.version != BigfileVersion::NONE && (entry.offset != 0xFFFF_FFFF
            ==> file_data_pos(*seg_header, *bf_header, entry.offset) <= i64::MAX)),
{
    if bf_header.version == BigfileVersion::NONE {
        return false;
    }
    if entry.offset == 0xFFFF_FFFF {
        return true;
    }
    let end = folder_table_pos_wide(seg_header, bf_header) + bf_header.num_folders as u128 * 64;
    let rem = end % 8;
    let aligned = if rem != 0 { end + (8 - rem) } else { end };
    aligned + entry.offset as u128 * 8 <= 0x7FFF_FFFF_FFFF_FFFF
}

/// Where the data of the file at `offset` starts; the version `NONE` has no entry size.
pub fn seek_to_file_data(seg_header: &SegmentHeader, bf_header: &BigfileHeader, offset: u32) -> (r: u64)
    requires
        bf_header.version != BigfileVersion::NONE,
        file_data_pos(*seg_header, *bf_header, offset) <= i64::MAX,
    ensures
        r == file_data_pos(*seg_header, *bf_header, offset),
{
    assert(folder_table_pos(*seg_header, *bf_header) <= u64::MAX) by {
        assert(bf_header.num_folders * 64 >= 0) by (nonlinear_arith);
        assert(offset * 8 >= 0) by (nonlinear_arith);
    }
    let base = seek_to_folder_table(seg_header, bf_header);
    let folder_data_size = bf_header.num_folders as u64 * 64;
    let pos = base + folder_data_size;
    let rem = pos % 8;
    let aligned = if rem != 0 {
        pos + (8u64 - rem)
    } else {
        pos
    };
    aligned + (offset as u64) * 8
}

/// The references that head an object's data: a count, then that many keys.
pub open spec fn refs_of(s: Seq<u8>) -> Seq<YKey> {
    Seq::new(le_u32(s, 0) as nat, |i: int| YKey(le_u32(s, 4 + 4 * i)))
}

/// The references fit in the buffer (else reading them aborts).
pub open spec fn refs_fit(s: Seq<u8>) -> bool {
    s.len() >= 4 && 4 + 4 * (le_u32(s, 0) as int) <= s.len()
}

/// Splits an object's data into its references and what follows them.
pub fn parse_and_remove_refs(buf: &[u8]) -> (r: (Vec<YKey>, &[u8]))
    requires
        refs_fit(buf@),
    ensures
        r.0@ == refs_of(buf@),
        r.1@ == buf@.subrange(4 + 4 * (le_u32(buf@, 0) as int), buf@.len() as int),
{
    let mut rd = ByteReader::new(buf);
    let num_refs = unwrap_read(rd.read_u32());
    let mut refs: Vec<YKey> = Vec::new();
    let mut i: u32 = 0;
    while i < num_refs
        invariant
            rd.data() == buf@,
            refs_fit(buf@),
            num_refs == le_u32(buf@, 0),
            i <= num_refs,
            rd.at() == 4 + 4 * i,
            refs@ == refs_of(buf@).subrange(0, i as int),
        decreases num_refs - i,
    {
        let k = unwrap_read(rd.read_u32());
        refs.push(YKey(k));
        i = i + 1;
        assert(refs@ =~= refs_of(buf@).subrange(0, i as int));
    }
    assert(refs@ =~= refs_of(buf@));
    let start = 4 + 4 * (num_refs as usize);
    (refs, vstd::slice::slice_subrange(buf, start, buf.len()))
}

/// The file table that the first `n` entries of `s` make: a later entry with the same key
/// replaces an earlier one.
pub open spec fn file_table_of(s: Seq<u8>, n: nat, version: BigfileVersion) -> Map<u32, FileEntry>
    decreases n,
{
    if n == 0 {
        Map::empty()
    } else {
        let e = file_entry_at(s, (n - 1) * file_entry_size(version), version);
        file_table_of(s, (n - 1) as nat, version).insert(e.key.0, e)
    }
}

/// Every one of the first `n` entries of `s` is readable (see `file_entry_ok`).
pub open spec fn file_table_ok(s: Seq<u8>, n: nat, version: BigfileVersion) -> bool {
    forall|i: int| 0 <= i < n ==> file_entry_ok(s, #[trigger] (i * file_entry_size(version)), version)
}

/// Whether the entry at `p` is readable (see `file_entry_ok`).
pub fn file_entry_readable(s: &[u8], p: usize, version: BigfileVersion) -> (r: bool)
    ensures
        r == file_entry_ok(s@, p as int, version),
{
    let size: usize = if version == BigfileVersion::GRO { 100 } else { 96 };
    if p > s.len() || s.len() - p < size {
        return false;
    }
    let code = (s[p + 12] as u16) + 256 * (s[p + 13] as u16);
    assert(code == le_u16(s@, p + 12));
    let t = match ObjectType::from_repr(code) {
        Some(t) => t,
        None => {
            return false;
        },
    };
    let ghost name = s@.subrange(p + 32, p + 92) + seq![0u8, 0u8, 0u8, 0u8];
    proof {
        lemma_first_zero(name, 0);
    }
    let mut i: usize = 0;
    while i < 60 && s[p + 32 + i] != 0
        invariant
            p + 92 <= s@.len(),
            s@.len() == s.len(),
            name == s@.subrange(p + 32, p + 92) + seq![0u8, 0u8, 0u8, 0u8],
            0 <= i <= 60,
            i <= first_zero(name, 0),
            first_zero(name, 0) <= name.len(),
            first_zero(name, 0) < name.len() ==> name[first_zero(name, 0)] == 0,
        decreases 60 - i,
    {
        assert(name[i as int] == s@[p + 32 + i]);
        i = i + 1;
    }
    proof {
        if i < 60 {
            assert(name[i as int] == 0);
        } else {
            assert(name[60] == 0);
        }
        assert(i == first_zero(name, 0));
    }
    let ext = t.name_bytes();
    i + 1 + ext.len() <= 64
}

/// Whether every entry of the file table is readable.
pub fn file_table_readable(table: &[u8], bf_header: &BigfileHeader) -> (r: bool)
    ensures
        r == (bf_header.version != BigfileVersion::NONE
            && file_table_ok(table@, bf_header.num_files as nat, bf_header.version)),
{
    let version = bf_header.version;
    if version == BigfileVersion::NONE {
        return false;
    }
    let size = FileEntry::struct_size(version);
    let n = bf_header.num_files;
    let mut i: u32 = 0;
    let mut p: usize = 0;
    while i < n
        invariant
            version != BigfileVersion::NONE,
            version == bf_header.version,
            n == bf_header.num_files,
            size == file_entry_size(version),
            i <= n,
            p == i * size,
            p <= table@.len(),
            table@.len() == table.len(),
            forall|j: int| 0 <= j < i ==> file_entry_ok(table@, #[trigger] (j * file_entry_size(version)), version),
        decreases n - i,
    {
        proof {
            assert(p == i * file_entry_size(version));
        }
        if !file_entry_readable(table, p, version) {
            return false;
        }
        proof {
            assert(file_entry_ok(table@, p as int, version));
            assert(p + size <= table@.len());
            assert((i + 1) * size == i * size + size) by (nonlinear_arith);
        }
        p = p + size;
        i = i + 1;
    }
    true
}

/// Reads the file table out of its bytes, keyed by each entry's key; the version `NONE`
/// and entries that `file_entry_ok` rejects are left out.
pub fn read_file_table(table: &[u8], bf_header: &BigfileHeader) -> (r: Result<HashMap<u32, FileEntry>, YetiIOError>)
    requires
        bf_header.version != BigfileVersion::NONE,
        file_table_ok(table@, bf_header.num_files as nat, bf_header.version),
    ensures
        r is Ok,
        r matches Ok(m) ==> m@ == file_table_of(table@, bf_header.num_files as nat, bf_header.version),
{
    let version = bf_header.version;
    let size = FileEntry::struct_size(version);
    let n = bf_header.num_files;
    let mut v: HashMap<u32, FileEntry> = HashMap::new();
    let mut rd = ByteReader::new(table);
    let mut i: u32 = 0;
    while i < n
        invariant
            rd.data() == table@,
            size == file_entry_size(version),
            version != BigfileVersion::NONE,
            n == bf_header.num_files,
            version == bf_header.version,
            file_table_ok(table@, n as nat, version),
            i <= n,
            rd.at() == i * size,
            v@ == file_table_of(table@, i as nat, version),
        decreases n - i,
    {
        assert(file_entry_ok(table@, i * file_entry_size(version), version));
        let ghost p = rd.at();
        let entry = FileEntry::read_from(&mut rd, version).unwrap();
        proof {
            assert(entry == file_entry_at(table@, p, version));
            assert((i + 1) * size == i * size + size) by (nonlinear_arith);
        }
        v.insert(entry.key.0, entry);
        i = i + 1;
    }
    Ok(v)
}

/// The folder table that `s` holds: entry `i` at `64 * i`, with its index set to `i`.
pub open spec fn folder_table_of(s: Seq<u8>, n: nat, version: BigfileVersion) -> Map<u16, FolderEntry> {
    Map::new(
        |k: u16| k < n,
        |k: u16| FolderEntry { idx: k, ..folder_entry_at(s, k * 64, version) },
    )
}

/// Reads the folder table out of its bytes, keyed by each entry's index; the version
/// `NONE` and a table shorter than its entries are left out.
pub fn read_folder_table(table: &[u8], bf_header: &BigfileHeader) -> (r: Result<HashMap<u16, FolderEntry>, YetiIOError>)
    requires
        bf_header.version != BigfileVersion::NONE,
        table@.len() >= bf_header.num_folders * 64,
    ensures
        r is Ok,
        r matches Ok(m) ==> m@ == folder_table_of(table@, bf_header.num_folders as nat, bf_header.version),
{
    let version = bf_header.version;
    let n = bf_header.num_folders;
    let mut v: HashMap<u16, FolderEntry> = HashMap::new();
    let mut rd = ByteReader::new(table);
    let mut i: u16 = 0;
    while i < n
        invariant
            rd.data() == table@,
            version != BigfileVersion::NONE,
            n == bf_header.num_folders,
            version == bf_header.version,
            table@.len() >= n * 64,
            i <= n,
            rd.at() == i * 64,
            v@ == Map::new(
                |k: u16| k < i,
                |k: u16| FolderEntry { idx: k, ..folder_entry_at(table@, k * 64, version) },
            ),
        decreases n - i,
    {
        proof {
            assert((i + 1) * 64 <= n * 64) by (nonlinear_arith)
                requires
                    i < n,
            ;
        }
        let mut entry = FolderEntry::read_from(&mut rd, version).unwrap();
        entry.idx = i;
        v.insert(i, entry);
        i = i + 1;
        assert(v@ =~= Map::new(
            |k: u16| k < i,
            |k: u16| FolderEntry { idx: k, ..folder_entry_at(table@, k * 64, version) },
        ));
    }
    Ok(v)
}

/// Where the data of a file starts, or an error for an entry whose offset marks it as
/// absent.
pub fn file_data_position(seg_header: &SegmentHeader, bf_header: &BigfileHeader, entry: &FileEntry) -> (r: Result<u64, YetiIOError>)
    requires
        bf_header.version != BigfileVersion::NONE,
        entry.offset != 0xFFFF_FFFF ==> file_data_pos(*seg_header, *bf_header, entry.offset) <= i64::MAX,
    ensures
        entry.offset == 0xFFFF_FFFF ==> r is Err && r->Err_0@ == err_view("invalid offset"@, unset_key()),
        entry.offset != 0xFFFF_FFFF ==> r == Ok::<u64, YetiIOError>(file_data_pos(*seg_header, *bf_header, entry.offset) as u64),
{
    if entry.offset == 0xFFFF_FFFF {
        return Err(YetiIOError::from_str_message("invalid offset"));
    }
    Ok(seek_to_file_data(seg_header, bf_header, entry.offset))
}

/// The bytes that zlib-decoding `data` yields when at least `n` of them come out: the first `n`.
pub uninterp spec fn zlib_inflate(data: Seq<u8>, n: nat) -> Option<Seq<u8>>;

/// flate2's `ZlibDecoder` over `data`, read with `read_exact` into `n` bytes. The bytes are
/// named, not stated; `read_exact` fills the whole buffer of `n` bytes, or fails (`None`)
/// where the decoder fails or ends early.
#[verifier::external_body]
fn zlib_read_exact(data: &[u8], n: usize) -> (r: Option<Vec<u8>>)
    ensures
        r is Some <==> zlib_inflate(data@, n as nat) is Some,
        r matches Some(v) ==> zlib_inflate(data@, n as nat) == Some(v@),
        r matches Some(v) ==> v@.len() == n,
{
    let mut v = vec![0u8; n];
    let mut decoder = flate2::read::ZlibDecoder::new(data);
    match std::io::Read::read_exact(&mut decoder, &mut v) {
        Ok(()) => Some(v),
        Err(_) => None,
    }
}

/// The payload of a stored (not compressed) file: a size, then that many bytes, of which a
/// short file gives what it has, the rest left zero.
pub open spec fn stored_payload(s: Seq<u8>) -> Seq<u8> {
    let size = le_i32(s, 0) as int;
    let k = partial_len(s, 4, size);
    s.subrange(4, 4 + k) + Seq::new((size - k) as nat, |i: int| 0u8)
}

/// The data read at a file's position can be decoded.
pub open spec fn payload_ok(s: Seq<u8>, zip: bool) -> bool {
    if zip {
        s.len() >= 8 && zlib_inflate(s.subrange(8, s.len() as int), le_u32(s, 4) as nat) is Some
    } else {
        s.len() >= 4 && le_i32(s, 0) >= 0
    }
}

/// The object's bytes out of the data read at its position.
pub open spec fn payload_of(s: Seq<u8>, zip: bool) -> Seq<u8> {
    if zip {
        zlib_inflate(s.subrange(8, s.len() as int), le_u32(s, 4) as nat)->0
    } else {
        stored_payload(s)
    }
}

/// The length of the object's bytes: the decompressed size of a compressed file, else the
/// stored size.
pub open spec fn payload_len(s: Seq<u8>, zip: bool) -> int {
    if zip {
        le_u32(s, 4) as int
    } else {
        le_i32(s, 0) as int
    }
}

/// Decodes the data read at a file's position: for a compressed file a compressed size, a
/// decompressed size and a zlib stream; else a size and the bytes.
pub fn read_file_payload(data: &[u8], zip: bool) -> (r: Vec<u8>)
    requires
        payload_ok(data@, zip),
        usize::MAX >= u32::MAX,
    ensures
        r@ == payload_of(data@, zip),
        r@.len() == payload_len(data@, zip),
{
    let mut rd = ByteReader::new(data);
    if zip {
        let _compressed_size = unwrap_read(rd.read_u32());
        let decompressed_size = unwrap_read(rd.read_u32());
        let rest = vstd::slice::slice_subrange(data, 8, data.len());
        match zlib_read_exact(rest, decompressed_size as usize) {
            Some(v) => v,
            None => Vec::new(),
        }
    } else {
        let size = unwrap_read(rd.read_i32());
        let got = rd.read_partial(size as usize);
        let mut v = got;
        let k = v.len();
        let mut i = k;
        while i < size as usize
            invariant
                size >= 0,
                k <= i <= size,
                k == partial_len(data@, 4, size as int),
                v@ == data@.subrange(4, 4 + k) + Seq::new((i - k) as nat, |j: int| 0u8),
            decreases size - i,
        {
            v.push(0);
            i = i + 1;
            assert(v@ =~= data@.subrange(4, 4 + k) + Seq::new((i - k) as nat, |j: int| 0u8));
        }
        v
    }
}

/// Decodes the data read at a file's position, or `None` where it cannot be decoded.
pub fn try_read_file_payload(data: &[u8], zip: bool) -> (r: Option<Vec<u8>>)
    requires
        usize::MAX >= u32::MAX,
    ensures
        r is Some <==> payload_ok(data@, zip),
        r matches Some(v) ==> v@ == payload_of(data@, zip),
        r matches Some(v) ==> v@.len() == payload_len(data@, zip),
{
    if data.len() < 4 || (zip && data.len() < 8) {
        return None;
    }
    let mut rd = ByteReader::new(data);
    if zip {
        let _ = rd.read_u32();
        let n = unwrap_read(rd.read_u32());
        let rest = vstd::slice::slice_subrange(data, 8, data.len());
        match zlib_read_exact(rest, n as usize) {
            Some(v) => Some(v),
            None => None,
        }
    } else {
        let size = unwrap_read(rd.read_i32());
        if size < 0 {
            return None;
        }
        Some(read_file_payload(data, zip))
    }
}

} // verus!

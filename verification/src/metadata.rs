use vstd::prelude::*;
use vstd::utf8::{valid_utf8, decode_utf8};
use vstd::string::StringExecFns;
use crate::bytes::{unwrap_read, ByteReader, avail, le_u16, le_u32, le_u64, le_i32, partial_len, read_partial_into};
use crate::error::{YetiIOError, err_view, unset_key};
use crate::object_type::{ObjectType, object_type_from_code, object_type_name_bytes};
use crate::text::{first_zero, lemma_first_zero, string_from_utf8, format_hex_key, hex_key_text};

verus! {

/// The key that names an object of the bigfile.
#[derive(Clone, Copy, Debug, PartialEq, Eq, PartialOrd, Ord, Hash, Structural)]
pub struct YKey(pub u32);

impl Default for YKey {
    fn default() -> (r: Self)
        ensures
            r.0 == 0xFFFF_FFFFu32,
    {
        YKey(0xFFFF_FFFF)
    }
}

impl YKey {
    pub fn value(&self) -> (r: u32)
        ensures
            r == self.0,
    {
        self.0
    }

    /// The key as it is written out: `0x` and eight upper-case hexadecimal digits.
    pub fn to_hex_string(&self) -> (r: String)
        ensures
            r@ == hex_key_text(self.0),
    {
        format_hex_key(self.0)
    }
}

impl From<u32> for YKey {
    fn from(value: u32) -> (r: Self) {
        YKey(value)
    }
}

impl vstd::std_specs::convert::FromSpecImpl<u32> for YKey {
    open spec fn obeys_from_spec() -> bool {
        true
    }

    open spec fn from_spec(v: u32) -> Self {
        YKey(v)
    }
}

impl From<YKey> for u32 {
    fn from(value: YKey) -> (r: Self) {
        value.0
    }
}

impl vstd::std_specs::convert::FromSpecImpl<YKey> for u32 {
    open spec fn obeys_from_spec() -> bool {
        true
    }

    open spec fn from_spec(v: YKey) -> Self {
        v.0
    }
}

/// The text of the bytes of `s` before its first zero, when there is a zero and those bytes
/// are valid UTF-8.
pub open spec fn c_string_ok(s: Seq<u8>) -> bool {
    first_zero(s, 0) < s.len() && valid_utf8(s.subrange(0, first_zero(s, 0)))
}

pub open spec fn c_string_text(s: Seq<u8>) -> Seq<char> {
    decode_utf8(s.subrange(0, first_zero(s, 0)))
}

/// Whether `bytes` hold a zero byte with valid UTF-8 before it.
pub fn is_c_string(bytes: &[u8]) -> (r: bool)
    ensures
        r == c_string_ok(bytes@),
{
    proof {
        lemma_first_zero(bytes@, 0);
    }
    let mut i: usize = 0;
    while i < bytes.len() && bytes[i] != 0
        invariant
            0 <= i <= first_zero(bytes@, 0),
            first_zero(bytes@, 0) <= bytes@.len(),
            first_zero(bytes@, 0) < bytes@.len() ==> bytes@[first_zero(bytes@, 0)] == 0,
            forall|j: int| 0 <= j < first_zero(bytes@, 0) ==> bytes@[j] != 0,
        decreases bytes@.len() - i,
    {
        i = i + 1;
    }
    if i >= bytes.len() {
        return false;
    }
    let v = crate::bytes::copy_range(bytes, 0, i);
    match string_from_utf8(v) {
        Ok(_) => true,
        Err(_) => false,
    }
}

/// The text before the first zero byte of `bytes`.
pub fn c_string(bytes: &[u8]) -> (r: String)
    requires
        c_string_ok(bytes@),
    ensures
        r@ == c_string_text(bytes@),
{
    proof {
        lemma_first_zero(bytes@, 0);
    }
    let mut i: usize = 0;
    while i < bytes.len() && bytes[i] != 0
        invariant
            0 <= i <= first_zero(bytes@, 0),
            first_zero(bytes@, 0) < bytes@.len(),
            bytes@[first_zero(bytes@, 0)] == 0,
            forall|j: int| 0 <= j < first_zero(bytes@, 0) ==> bytes@[j] != 0,
        decreases bytes@.len() - i,
    {
        i = i + 1;
    }
    let v = crate::bytes::copy_range(bytes, 0, i);
    match string_from_utf8(v) {
        Ok(s) => s,
        Err(_) => String::new(),
    }
}

/// The first chunk of the bigfile: its signature, segment counts and where its header is.
#[derive(Debug)]
pub struct SegmentHeader {
    pub sig: [u8; 4],
    pub unk01: u8,
    pub num_segments: u8,
    pub segment: u8,
    pub unk02: u8,
    pub unk_seg_offset01: u64,
    pub header_offset: u64,
    pub prev_total_data_len: u64,
    pub total_data_len: u64,
    pub last_update: u64,
}

/// The segment header that the first 48 bytes of `s` hold.
pub open spec fn segment_header_of(s: Seq<u8>) -> SegmentHeader {
    SegmentHeader {
        sig: [s[0], s[1], s[2], s[3]],
        unk01: s[4],
        num_segments: s[5],
        segment: s[6],
        unk02: s[7],
        unk_seg_offset01: le_u64(s, 8),
        header_offset: le_u64(s, 16),
        prev_total_data_len: le_u64(s, 24),
        total_data_len: le_u64(s, 32),
        last_update: le_u64(s, 40),
    }
}

/// Why a segment header is refused, if it is.
pub open spec fn integrity_error(h: SegmentHeader) -> Option<Seq<char>> {
    if !(h.sig[0] == 89 && h.sig[1] == 66 && h.sig[2] == 73 && h.sig[3] == 71) {
        Some("signature invalid!"@)
    } else if h.num_segments == 0 || h.segment >= h.num_segments {
        Some("segment counts invalid!"@)
    } else if h.header_offset < 48 {
        Some("header offset too small! (<48)"@)
    } else if h.header_offset > 163840 {
        Some("header offset too large! (>163840)"@)
    } else {
        None
    }
}

impl Default for SegmentHeader {
    fn default() -> (r: Self)
        ensures
            r.sig@ == seq![0u8, 0u8, 0u8, 0u8],
            r.unk01 == 0 && r.num_segments == 0 && r.segment == 0 && r.unk02 == 0,
            r.unk_seg_offset01 == 0 && r.header_offset == 0 && r.prev_total_data_len == 0,
            r.total_data_len == 0 && r.last_update == 0,
    {
        let r = SegmentHeader {
            sig: [0; 4],
            unk01: 0,
            num_segments: 0,
            segment: 0,
            unk02: 0,
            unk_seg_offset01: 0,
            header_offset: 0,
            prev_total_data_len: 0,
            total_data_len: 0,
            last_update: 0,
        };
        assert(r.sig@ =~= seq![0u8, 0u8, 0u8, 0u8]);
        r
    }
}

impl SegmentHeader {
    /// Reads the segment header from the first bytes of the bigfile and checks it. Fewer than
    /// four bytes are refused; four to 47 bytes are left out, as the fields run past them.
    pub fn read_from(buf: &[u8]) -> (r: Result<SegmentHeader, YetiIOError>)
        requires
            buf@.len() < 4 || buf@.len() >= 48,
        ensures
            buf@.len() < 4 ==> r is Err && r->Err_0@ == err_view(
                "could not read header correctly!"@,
                unset_key(),
            ),
            buf@.len() >= 48 ==> match integrity_error(segment_header_of(buf@)) {
                Some(m) => r is Err && r->Err_0@ == err_view(m, unset_key()),
                None => r == Ok::<SegmentHeader, YetiIOError>(segment_header_of(buf@)),
            },
    {
        let mut rd = ByteReader::new(buf);
        let mut header = SegmentHeader::default();
        let mut sig = [0u8; 4];
        read_partial_into(&mut rd, &mut sig);
        if buf.len() < 4 {
            return Err(YetiIOError::from_str_message("could not read header correctly!"));
        }
        header.sig = sig;
        header.unk01 = buf[4];
        header.num_segments = buf[5];
        header.segment = buf[6];
        header.unk02 = buf[7];
        rd.set_position(8);
        header.unk_seg_offset01 = unwrap_read(rd.read_u64());
        header.header_offset = unwrap_read(rd.read_u64());
        header.prev_total_data_len = unwrap_read(rd.read_u64());
        header.total_data_len = unwrap_read(rd.read_u64());
        header.last_update = unwrap_read(rd.read_u64());
        assert(header.sig =~= segment_header_of(buf@).sig);
        match header.verify_integrity() {
            Ok(()) => Ok(header),
            Err(m) => Err(YetiIOError::from_str_message(m)),
        }
    }

    /// The signature as text.
    pub fn sig_to_str(&self) -> (r: String)
        requires
            valid_utf8(self.sig@),
        ensures
            r@ == decode_utf8(self.sig@),
    {
        let v = crate::bytes::copy_range(&self.sig, 0, 4);
        assert(v@ =~= self.sig@);
        match string_from_utf8(v) {
            Ok(s) => s,
            Err(_) => String::new(),
        }
    }

    /// Checks the signature `YBIG`, the segment counts and the header offset, in that order.
    pub fn verify_integrity(&self) -> (r: Result<(), &'static str>)
        ensures
            r is Ok <==> integrity_error(*self) is None,
            r matches Err(m) ==> integrity_error(*self) == Some(m@),
    {
        if self.sig[0] != 89 || self.sig[1] != 66 || self.sig[2] != 73 || self.sig[3] != 71 {
            return Err("signature invalid!");
        }
        if self.num_segments == 0 || self.segment >= self.num_segments {
            return Err("segment counts invalid!");
        }
        if self.header_offset < 48 {
            return Err("header offset too small! (<48)");
        }
        if self.header_offset > 163840 {
            return Err("header offset too large! (>163840)");
        }
        Ok(())
    }
}

/// The format version of the bigfile.
#[derive(Debug, Clone, Copy, PartialEq, Eq, Structural)]
pub enum BigfileVersion {
    NONE,
    GRO,
    GRFS,
}

/// The version stored as `v`, if any.
pub open spec fn version_from_code(v: u16) -> Option<BigfileVersion> {
    if v == 0 {
        Some(BigfileVersion::NONE)
    } else if v == 0x86 {
        Some(BigfileVersion::GRO)
    } else if v == 0x87 {
        Some(BigfileVersion::GRFS)
    } else {
        None
    }
}

impl BigfileVersion {
    pub fn from_repr(v: u16) -> (r: Option<BigfileVersion>)
        ensures
            r == version_from_code(v),
    {
        if v == 0 {
            Some(BigfileVersion::NONE)
        } else if v == 0x86 {
            Some(BigfileVersion::GRO)
        } else if v == 0x87 {
            Some(BigfileVersion::GRFS)
        } else {
            None
        }
    }
}

/// The byte at `i` of a partial read of `n` bytes at `p`, or zero past what it copies.
pub open spec fn partial_byte(s: Seq<u8>, p: int, n: int, i: int) -> u8 {
    if i < partial_len(s, p, n) {
        s[p + i]
    } else {
        0
    }
}

/// The header of the bigfile: its version, table sizes and data root.
#[derive(Debug)]
pub struct BigfileHeader {
    pub version: BigfileVersion,
    pub num_folders: u16,
    pub num_files: u32,
    pub unk_01: [u8; 72],
    pub load_priority: u32,
    pub auto_activate: bool,
    pub unk_02: [u8; 3],
    pub data_root: [u8; 40],
}

/// The bigfile header that `s` holds (at least 85 bytes, with a known version).
pub open spec fn bigfile_header_of(s: Seq<u8>) -> BigfileHeader {
    BigfileHeader {
        version: version_from_code(le_u16(s, 0))->0,
        num_folders: le_u16(s, 2),
        num_files: le_u32(s, 4),
        unk_01: [s[8], s[9], s[10], s[11], s[12], s[13], s[14], s[15], s[16], s[17], s[18], s[19], s[20], s[21], s[22], s[23], s[24], s[25], s[26], s[27], s[28], s[29], s[30], s[31], s[32], s[33], s[34], s[35], s[36], s[37], s[38], s[39], s[40], s[41], s[42], s[43], s[44], s[45], s[46], s[47], s[48], s[49], s[50], s[51], s[52], s[53], s[54], s[55], s[56], s[57], s[58], s[59], s[60], s[61], s[62], s[63], s[64], s[65], s[66], s[67], s[68], s[69], s[70], s[71], s[72], s[73], s[74], s[75], s[76], s[77], s[78], s[79]],
        load_priority: le_u32(s, 80),
        auto_activate: s[84] != 0,
        unk_02: [partial_byte(s, 85, 3, 0), partial_byte(s, 85, 3, 1), partial_byte(s, 85, 3, 2)],
        data_root: [partial_byte(s, 85 + partial_len(s, 85, 3), 40, 0), partial_byte(s, 85 + partial_len(s, 85, 3), 40, 1), partial_byte(s, 85 + partial_len(s, 85, 3), 40, 2), partial_byte(s, 85 + partial_len(s, 85, 3), 40, 3), partial_byte(s, 85 + partial_len(s, 85, 3), 40, 4), partial_byte(s, 85 + partial_len(s, 85, 3), 40, 5), partial_byte(s, 85 + partial_len(s, 85, 3), 40, 6), partial_byte(s, 85 + partial_len(s, 85, 3), 40, 7), partial_byte(s, 85 + partial_len(s, 85, 3), 40, 8), partial_byte(s, 85 + partial_len(s, 85, 3), 40, 9), partial_byte(s, 85 + partial_len(s, 85, 3), 40, 10), partial_byte(s, 85 + partial_len(s, 85, 3), 40, 11), partial_byte(s, 85 + partial_len(s, 85, 3), 40, 12), partial_byte(s, 85 + partial_len(s, 85, 3), 40, 13), partial_byte(s, 85 + partial_len(s, 85, 3), 40, 14), partial_byte(s, 85 + partial_len(s, 85, 3), 40, 15), partial_byte(s, 85 + partial_len(s, 85, 3), 40, 16), partial_byte(s, 85 + partial_len(s, 85, 3), 40, 17), partial_byte(s, 85 + partial_len(s, 85, 3), 40, 18), partial_byte(s, 85 + partial_len(s, 85, 3), 40, 19), partial_byte(s, 85 + partial_len(s, 85, 3), 40, 20), partial_byte(s, 85 + partial_len(s, 85, 3), 40, 21), partial_byte(s, 85 + partial_len(s, 85, 3), 40, 22), partial_byte(s, 85 + partial_len(s, 85, 3), 40, 23), partial_byte(s, 85 + partial_len(s, 85, 3), 40, 24), partial_byte(s, 85 + partial_len(s, 85, 3), 40, 25), partial_byte(s, 85 + partial_len(s, 85, 3), 40, 26), partial_byte(s, 85 + partial_len(s, 85, 3), 40, 27), partial_byte(s, 85 + partial_len(s, 85, 3), 40, 28), partial_byte(s, 85 + partial_len(s, 85, 3), 40, 29), partial_byte(s, 85 + partial_len(s, 85, 3), 40, 30), partial_byte(s, 85 + partial_len(s, 85, 3), 40, 31), partial_byte(s, 85 + partial_len(s, 85, 3), 40, 32), partial_byte(s, 85 + partial_len(s, 85, 3), 40, 33), partial_byte(s, 85 + partial_len(s, 85, 3), 40, 34), partial_byte(s, 85 + partial_len(s, 85, 3), 40, 35), partial_byte(s, 85 + partial_len(s, 85, 3), 40, 36), partial_byte(s, 85 + partial_len(s, 85, 3), 40, 37), partial_byte(s, 85 + partial_len(s, 85, 3), 40, 38), partial_byte(s, 85 + partial_len(s, 85, 3), 40, 39)],
    }
}

impl Default for BigfileHeader {
    fn default() -> (r: Self)
        ensures
            r.version == BigfileVersion::NONE,
            r.num_folders == 0 && r.num_files == 0 && r.load_priority == 0 && !r.auto_activate,
            r.unk_01@ == Seq::new(72, |i: int| 0u8),
            r.unk_02@ == Seq::new(3, |i: int| 0u8),
            r.data_root@ == Seq::new(40, |i: int| 0u8),
    {
        let r = BigfileHeader {
            version: BigfileVersion::NONE,
            num_folders: 0,
            num_files: 0,
            unk_01: [0; 72],
            load_priority: 0,
            auto_activate: false,
            unk_02: [0; 3],
            data_root: [0; 40],
        };
        assert(r.unk_01@ =~= Seq::new(72, |i: int| 0u8));
        assert(r.unk_02@ =~= Seq::new(3, |i: int| 0u8));
        assert(r.data_root@ =~= Seq::new(40, |i: int| 0u8));
        r
    }
}

impl BigfileHeader {
    /// Reads the bigfile header from its bytes: an unknown version and fewer than 85 bytes
    /// are left out; its last two fields take what bytes are left.
    #[verifier::spinoff_prover]
    #[verifier::rlimit(60)]
    pub fn read_from(buf: &[u8]) -> (r: Result<BigfileHeader, String>)
        requires
            buf@.len() >= 85,
            version_from_code(le_u16(buf@, 0)) is Some,
        ensures
            r == Ok::<BigfileHeader, String>(bigfile_header_of(buf@)),
    {
        let mut rd = ByteReader::new(buf);
        let code = unwrap_read(rd.read_u16());
        let version = match BigfileVersion::from_repr(code) {
            Some(v) => v,
            None => BigfileVersion::NONE,
        };
        let num_folders = unwrap_read(rd.read_u16());
        let num_files = unwrap_read(rd.read_u32());
        let mut unk_01 = [0u8; 72];
        read_partial_into(&mut rd, &mut unk_01);
        let load_priority = unwrap_read(rd.read_u32());
        let auto_activate = unwrap_read(rd.read_u8()) != 0;
        let mut unk_02 = [0u8; 3];
        read_partial_into(&mut rd, &mut unk_02);
        let ghost after = rd.at();
        let mut data_root = [0u8; 40];
        read_partial_into(&mut rd, &mut data_root);
        let h = BigfileHeader {
            version,
            num_folders,
            num_files,
            unk_01,
            load_priority,
            auto_activate,
            unk_02,
            data_root,
        };
        proof {
            let g = bigfile_header_of(buf@);
            assert(h.unk_01 =~= g.unk_01);
            assert(h.unk_02 =~= g.unk_02);
            assert(after == 85 + partial_len(buf@, 85, 3));
            assert(h.data_root =~= g.data_root);
        }
        Ok(h)
    }

    /// The data root: its text before the first zero byte.
    pub fn data_root_str(&self) -> (r: String)
        requires
            c_string_ok(self.data_root@),
        ensures
            r@ == c_string_text(self.data_root@),
    {
        c_string(&self.data_root)
    }
}

/// An entry of the folder table.
#[derive(Debug, Clone, Copy)]
pub struct FolderEntry {
    pub idx: u16,
    pub unk01: u16,
    pub unk02: u16,
    pub unk03: u16,
    pub unk04: u16,
    pub parent_folder: u16,
    pub first_child: u16,
    pub next_folder: u16,
    pub name: [u8; 50],
}

/// How many bytes a folder entry takes in a bigfile of the given version.
pub open spec fn folder_entry_size(version: BigfileVersion) -> int {
    if version == BigfileVersion::NONE {
        60
    } else {
        64
    }
}

/// The folder entry that `s` holds at `p` (index zero: the table sets it).
pub open spec fn folder_entry_at(s: Seq<u8>, p: int, version: BigfileVersion) -> FolderEntry {
    if version == BigfileVersion::GRO {
        FolderEntry {
            idx: 0,
            unk01: le_u16(s, p),
            unk02: le_u16(s, p + 2),
            unk03: le_u16(s, p + 4),
            unk04: le_u16(s, p + 6),
            parent_folder: le_u16(s, p + 8),
            first_child: le_u16(s, p + 10),
            next_folder: le_u16(s, p + 12),
            name: [s[p + 14], s[p + 15], s[p + 16], s[p + 17], s[p + 18], s[p + 19], s[p + 20], s[p + 21], s[p + 22], s[p + 23], s[p + 24], s[p + 25], s[p + 26], s[p + 27], s[p + 28], s[p + 29], s[p + 30], s[p + 31], s[p + 32], s[p + 33], s[p + 34], s[p + 35], s[p + 36], s[p + 37], s[p + 38], s[p + 39], s[p + 40], s[p + 41], s[p + 42], s[p + 43], s[p + 44], s[p + 45], s[p + 46], s[p + 47], s[p + 48], s[p + 49], s[p + 50], s[p + 51], s[p + 52], s[p + 53], s[p + 54], s[p + 55], s[p + 56], s[p + 57], s[p + 58], s[p + 59], s[p + 60], s[p + 61], s[p + 62], s[p + 63]],
        }
    } else {
        FolderEntry {
            idx: 0,
            unk01: le_u16(s, p),
            unk02: le_u16(s, p + 2),
            unk03: if version == BigfileVersion::GRFS { le_u16(s, p + 60) } else { 0 },
            unk04: if version == BigfileVersion::GRFS { le_u16(s, p + 62) } else { 0 },
            parent_folder: le_u16(s, p + 4),
            first_child: le_u16(s, p + 6),
            next_folder: le_u16(s, p + 8),
            name: [s[p + 10], s[p + 11], s[p + 12], s[p + 13], s[p + 14], s[p + 15], s[p + 16], s[p + 17], s[p + 18], s[p + 19], s[p + 20], s[p + 21], s[p + 22], s[p + 23], s[p + 24], s[p + 25], s[p + 26], s[p + 27], s[p + 28], s[p + 29], s[p + 30], s[p + 31], s[p + 32], s[p + 33], s[p + 34], s[p + 35], s[p + 36], s[p + 37], s[p + 38], s[p + 39], s[p + 40], s[p + 41], s[p + 42], s[p + 43], s[p + 44], s[p + 45], s[p + 46], s[p + 47], s[p + 48], s[p + 49], s[p + 50], s[p + 51], s[p + 52], s[p + 53], s[p + 54], s[p + 55], s[p + 56], s[p + 57], s[p + 58], s[p + 59]],
        }
    }
}

impl Default for FolderEntry {
    fn default() -> (r: Self)
        ensures
            r.idx == 0 && r.unk01 == 0 && r.unk02 == 0 && r.unk03 == 0 && r.unk04 == 0,
            r.parent_folder == 0 && r.first_child == 0 && r.next_folder == 0,
            r.name@ == Seq::new(50, |i: int| 0u8),
    {
        let r = FolderEntry {
            idx: 0,
            unk01: 0,
            unk02: 0,
            unk03: 0,
            unk04: 0,
            parent_folder: 0,
            first_child: 0,
            next_folder: 0,
            name: [0; 50],
        };
        assert(r.name@ =~= Seq::new(50, |i: int| 0u8));
        r
    }
}

impl FolderEntry {
    /// How many bytes a folder entry takes; the version `NONE` has no entry size.
    pub fn struct_size(version: BigfileVersion) -> (r: usize)
        requires
            version != BigfileVersion::NONE,
        ensures
            r == 64,
    {
        64
    }

    /// Reads a folder entry at the reader's position; an entry that runs past the end of its
    /// buffer is left out.
    pub fn read_from(reader: &mut ByteReader, version: BigfileVersion) -> (r: Result<FolderEntry, String>)
        requires
            avail(old(reader).data(), old(reader).at(), folder_entry_size(version)),
        ensures
            r == Ok::<FolderEntry, String>(folder_entry_at(old(reader).data(), old(reader).at(), version)),
            final(reader).data() == old(reader).data(),
            final(reader).at() == old(reader).at() + folder_entry_size(version),
    {
        let ghost s = reader.data();
        let ghost p = reader.at();
        let unk01 = unwrap_read(reader.read_u16());
        let unk02 = unwrap_read(reader.read_u16());
        let mut unk03: u16 = 0;
        let mut unk04: u16 = 0;
        if version == BigfileVersion::GRO {
            unk03 = unwrap_read(reader.read_u16());
            unk04 = unwrap_read(reader.read_u16());
        }
        let parent_folder = unwrap_read(reader.read_u16());
        let first_child = unwrap_read(reader.read_u16());
        let next_folder = unwrap_read(reader.read_u16());
        let ghost name_at = reader.at();
        let mut name = [0u8; 50];
        read_partial_into(reader, &mut name);
        if version == BigfileVersion::GRFS {
            unk03 = unwrap_read(reader.read_u16());
            unk04 = unwrap_read(reader.read_u16());
        }
        let e = FolderEntry {
            idx: 0,
            unk01,
            unk02,
            unk03,
            unk04,
            parent_folder,
            first_child,
            next_folder,
            name,
        };
        proof {
            assert(e.name =~= folder_entry_at(s, p, version).name);
        }
        Ok(e)
    }

    /// The folder's name: the text of its name before the first zero byte.
    pub fn get_name(&self) -> (r: String)
        requires
            c_string_ok(self.name@),
        ensures
            r@ == c_string_text(self.name@),
    {
        c_string(&self.name)
    }
}

/// An entry of the file table: where an object's data lies, its key, type, folder and name.
#[derive(Debug, Clone, Copy)]
pub struct FileEntry {
    pub offset: u32,
    pub key: YKey,
    pub unk01: i32,
    pub object_type: ObjectType,
    pub parent_folder: u16,
    /// Seconds since the Unix epoch.
    pub timestamp: i64,
    pub flags: i32,
    pub unk02: i32,
    pub crc: [u8; 4],
    pub name: [u8; 60],
    pub unk03: i32,
    pub zip: bool,
    pub tmp_name_buf: [u8; 64],
}

/// How many bytes a file entry takes in a bigfile of the given version.
pub open spec fn file_entry_size(version: BigfileVersion) -> int {
    if version == BigfileVersion::GRO {
        100
    } else {
        96
    }
}

/// The name followed by a dot and the type's name, zero-padded to 64 bytes.
pub open spec fn name_with_ext(name: Seq<u8>, ext: Seq<u8>) -> Seq<u8> {
    let t = name + seq![0u8, 0u8, 0u8, 0u8];
    let i = first_zero(t, 0);
    Seq::new(
        64,
        |j: int|
            if j < i {
                t[j]
            } else if j == i {
                46u8
            } else if j <= i + ext.len() {
                ext[j - i - 1]
            } else {
                t[j]
            },
    )
}

/// The bytes at `p` hold a readable file entry: it fits,
/// its type code is known, and its name with the type's name appended fits in 64 bytes.
pub open spec fn file_entry_ok(s: Seq<u8>, p: int, version: BigfileVersion) -> bool {
    &&& avail(s, p, file_entry_size(version))
    &&& object_type_from_code(le_u16(s, p + 12)) is Some
    &&& first_zero(s.subrange(p + 32, p + 92) + seq![0u8, 0u8, 0u8, 0u8], 0) + 1
        + object_type_name_bytes(object_type_from_code(le_u16(s, p + 12))->0).len() <= 64
}

/// The file entry that `s` holds at `p`.
pub open spec fn file_entry_at(s: Seq<u8>, p: int, version: BigfileVersion) -> FileEntry {
    let t = object_type_from_code(le_u16(s, p + 12))->0;
    let x = name_with_ext(s.subrange(p + 32, p + 92), object_type_name_bytes(t));
    FileEntry {
        offset: le_u32(s, p),
        key: YKey(le_u32(s, p + 4)),
        unk01: le_i32(s, p + 8),
        object_type: t,
        parent_folder: le_u16(s, p + 14),
        timestamp: le_i32(s, p + 16) as i64,
        flags: le_i32(s, p + 20),
        unk02: le_i32(s, p + 24),
        crc: [s[p + 28], s[p + 29], s[p + 30], s[p + 31]],
        name: [s[p + 32], s[p + 33], s[p + 34], s[p + 35], s[p + 36], s[p + 37], s[p + 38], s[p + 39], s[p + 40], s[p + 41], s[p + 42], s[p + 43], s[p + 44], s[p + 45], s[p + 46], s[p + 47], s[p + 48], s[p + 49], s[p + 50], s[p + 51], s[p + 52], s[p + 53], s[p + 54], s[p + 55], s[p + 56], s[p + 57], s[p + 58], s[p + 59], s[p + 60], s[p + 61], s[p + 62], s[p + 63], s[p + 64], s[p + 65], s[p + 66], s[p + 67], s[p + 68], s[p + 69], s[p + 70], s[p + 71], s[p + 72], s[p + 73], s[p + 74], s[p + 75], s[p + 76], s[p + 77], s[p + 78], s[p + 79], s[p + 80], s[p + 81], s[p + 82], s[p + 83], s[p + 84], s[p + 85], s[p + 86], s[p + 87], s[p + 88], s[p + 89], s[p + 90], s[p + 91]],
        unk03: le_i32(s, p + 92),
        zip: version == BigfileVersion::GRO && le_i32(s, p + 96) == 1,
        tmp_name_buf: [x[0], x[1], x[2], x[3], x[4], x[5], x[6], x[7], x[8], x[9], x[10], x[11], x[12], x[13], x[14], x[15], x[16], x[17], x[18], x[19], x[20], x[21], x[22], x[23], x[24], x[25], x[26], x[27], x[28], x[29], x[30], x[31], x[32], x[33], x[34], x[35], x[36], x[37], x[38], x[39], x[40], x[41], x[42], x[43], x[44], x[45], x[46], x[47], x[48], x[49], x[50], x[51], x[52], x[53], x[54], x[55], x[56], x[57], x[58], x[59], x[60], x[61], x[62], x[63]],
    }
}

impl Default for FileEntry {
    fn default() -> (r: Self)
        ensures
            r.offset == 0 && r.key == YKey(0) && r.unk01 == 0,
            r.object_type == ObjectType::null && r.parent_folder == 0 && r.timestamp == 0,
            r.flags == 0 && r.unk02 == 0 && r.unk03 == 0 && !r.zip,
            r.crc@ == Seq::new(4, |i: int| 0u8),
            r.name@ == Seq::new(60, |i: int| 0u8),
    {
        let r = FileEntry {
            offset: 0,
            key: YKey(0),
            unk01: 0,
            object_type: ObjectType::null,
            parent_folder: 0,
            timestamp: 0,
            flags: 0,
            unk02: 0,
            crc: [0; 4],
            name: [0; 60],
            unk03: 0,
            zip: false,
            tmp_name_buf: [0; 64],
        };
        assert(r.crc@ =~= Seq::new(4, |i: int| 0u8));
        assert(r.name@ =~= Seq::new(60, |i: int| 0u8));
        r
    }
}

impl FileEntry {
    /// How many bytes a file entry takes; the version `NONE` has no entry size.
    pub fn struct_size(version: BigfileVersion) -> (r: usize)
        requires
            version != BigfileVersion::NONE,
        ensures
            r == file_entry_size(version),
    {
        match version {
            BigfileVersion::GRO => 100,
            _ => 96,
        }
    }

    /// Reads a file entry at the reader's position, and builds its name with the type's name
    /// appended; the entries that `file_entry_ok` rejects are left out.
    #[verifier::spinoff_prover]
    #[verifier::rlimit(40)]
    pub fn read_from(reader: &mut ByteReader, version: BigfileVersion) -> (r: Result<FileEntry, String>)
        requires
            file_entry_ok(old(reader).data(), old(reader).at(), version),
        ensures
            r == Ok::<FileEntry, String>(file_entry_at(old(reader).data(), old(reader).at(), version)),
            final(reader).data() == old(reader).data(),
            final(reader).at() == old(reader).at() + file_entry_size(version),
    {
        let ghost s = reader.data();
        let ghost p = reader.at();
        let offset = unwrap_read(reader.read_u32());
        let key = unwrap_read(reader.read_u32());
        let unk01 = unwrap_read(reader.read_i32());
        let code = unwrap_read(reader.read_u16());
        let object_type = match ObjectType::from_repr(code) {
            Some(t) => t,
            None => ObjectType::null,
        };
        let parent_folder = unwrap_read(reader.read_u16());
        let ts = unwrap_read(reader.read_i32());
        let flags = unwrap_read(reader.read_i32());
        let unk02 = unwrap_read(reader.read_i32());
        let mut crc = [0u8; 4];
        read_partial_into(reader, &mut crc);
        let mut name = [0u8; 60];
        read_partial_into(reader, &mut name);
        let unk03 = unwrap_read(reader.read_i32());
        let mut zip = false;
        if version == BigfileVersion::GRO {
            zip = unwrap_read(reader.read_i32()) == 1;
        }
        let tmp_name_buf = build_name_with_ext(&name, object_type);
        let e = FileEntry {
            offset,
            key: YKey(key),
            unk01,
            object_type,
            parent_folder,
            timestamp: ts as i64,
            flags,
            unk02,
            crc,
            name,
            unk03,
            zip,
            tmp_name_buf,
        };
        proof {
            let g = file_entry_at(s, p, version);
            assert(name@ =~= s.subrange(p + 32, p + 92));
            assert(e.crc =~= g.crc);
            assert(e.name =~= g.name);
            assert(e.tmp_name_buf =~= g.tmp_name_buf);
        }
        Ok(e)
    }

    /// The file's name: the text of its name before the first zero byte.
    pub fn get_name(&self) -> (r: String)
        requires
            c_string_ok(self.name@),
        ensures
            r@ == c_string_text(self.name@),
    {
        c_string(&self.name)
    }

    /// The file's name followed by a dot and its type's name.
    pub fn get_name_ext(&self) -> (r: String)
        requires
            c_string_ok(self.tmp_name_buf@),
        ensures
            r@ == c_string_text(self.tmp_name_buf@),
    {
        c_string(&self.tmp_name_buf)
    }
}

/// The name with a dot and the type's name appended, zero-padded to 64 bytes.
fn build_name_with_ext(name: &[u8; 60], t: ObjectType) -> (r: [u8; 64])
    requires
        first_zero(name@ + seq![0u8, 0u8, 0u8, 0u8], 0) + 1 + object_type_name_bytes(t).len() <= 64,
    ensures
        r@ == name_with_ext(name@, object_type_name_bytes(t)),
{
    let ghost t4 = name@ + seq![0u8, 0u8, 0u8, 0u8];
    let mut tmp = [0u8; 64];
    let mut j: usize = 0;
    while j < 60
        invariant
            0 <= j <= 60,
            name@.len() == 60,
            tmp@.len() == 64,
            forall|k: int| 0 <= k < j ==> tmp@[k] == name@[k],
            forall|k: int| j <= k < 64 ==> tmp@[k] == 0,
        decreases 60 - j,
    {
        tmp[j] = name[j];
        j = j + 1;
    }
    assert(tmp@ =~= t4);
    proof {
        lemma_first_zero(t4, 0);
        assert(t4[60] == 0);
    }
    let mut idx: usize = 0;
    while tmp[idx] != 0
        invariant
            tmp@ == t4,
            0 <= idx <= first_zero(t4, 0),
            first_zero(t4, 0) <= 60,
            t4[first_zero(t4, 0)] == 0,
            forall|k: int| 0 <= k < first_zero(t4, 0) ==> t4[k] != 0,
        decreases 64 - idx,
    {
        idx = idx + 1;
    }
    tmp[idx] = 46;
    let ext = t.name_bytes();
    let mut k: usize = 0;
    while k < ext.len()
        invariant
            idx == first_zero(t4, 0),
            idx + 1 + ext@.len() <= 64,
            ext@ == object_type_name_bytes(t),
            0 <= k <= ext@.len(),
            tmp@.len() == 64,
            forall|m: int| 0 <= m < idx ==> tmp@[m] == t4[m],
            tmp@[idx as int] == 46,
            forall|m: int| idx < m <= idx + k ==> tmp@[m] == ext@[m - idx - 1],
            forall|m: int| idx + k < m < 64 ==> tmp@[m] == t4[m],
        decreases ext@.len() - k,
    {
        tmp[idx + 1 + k] = ext[k];
        k = k + 1;
    }
    assert(tmp@ =~= name_with_ext(name@, object_type_name_bytes(t)));
    tmp
}

} // verus!

use vstd::prelude::*;
use crate::bytes::{ByteReader, avail, le_u16, le_u32, le_i16, le_i32, partial_len, fill_partial, read_partial_into, copy_into, unwrap_read, zero_bytes};
use crate::error::{LoadError, eof_message, err_view, unset_key};
use crate::text::decimal_text;
use crate::objects::common::{
    ArchetypeImpl, Outcome, outcome_of, keyless, Step, list_run, lemma_list_run_stops, RawVec3,
    read_vec3, vec3_at, error_with_decimal,
};

verus! {

/// Where a submesh's vertices lie, and values not understood yet.
#[derive(Debug)]
pub struct SubmeshDescriptor {
    pub vtx_start: u16,
    pub vtx_num: u16,
    pub unk_01: u16,
    pub unk_02: u16,
    pub unk_03: u16,
    pub unk_04: u16,
    pub unk_05: u16,
    pub unk_vec: Vec<u8>,
}

pub struct SubmeshView {
    pub vtx_start: u16,
    pub vtx_num: u16,
    pub unk_01: u16,
    pub unk_02: u16,
    pub unk_03: u16,
    pub unk_04: u16,
    pub unk_05: u16,
    pub unk_vec: Seq<u8>,
}

impl View for SubmeshDescriptor {
    type V = SubmeshView;

    open spec fn view(&self) -> SubmeshView {
        SubmeshView {
            vtx_start: self.vtx_start,
            vtx_num: self.vtx_num,
            unk_01: self.unk_01,
            unk_02: self.unk_02,
            unk_03: self.unk_03,
            unk_04: self.unk_04,
            unk_05: self.unk_05,
            unk_vec: self.unk_vec@,
        }
    }
}

/// The description of a mesh: how many submeshes it has and where each one lies.
#[derive(Debug)]
pub struct MeshMetadata {
    pub num_submeshes: u8,
    pub version: i32,
    pub unk_dat01: [u8; 10],
    pub submeshes: Vec<SubmeshDescriptor>,
    pub unk_dat02: [u8; 32],
}

pub struct MeshMetadataView {
    pub num_submeshes: u8,
    pub version: i32,
    pub unk_dat01: Seq<u8>,
    pub submeshes: Seq<SubmeshView>,
    pub unk_dat02: Seq<u8>,
}

impl View for MeshMetadata {
    type V = MeshMetadataView;

    open spec fn view(&self) -> MeshMetadataView {
        MeshMetadataView {
            num_submeshes: self.num_submeshes,
            version: self.version,
            unk_dat01: self.unk_dat01@,
            submeshes: self.submeshes@.map_values(|d: SubmeshDescriptor| d@),
            unk_dat02: self.unk_dat02@,
        }
    }
}

pub open spec fn empty_mesh_metadata() -> MeshMetadataView {
    MeshMetadataView {
        num_submeshes: 0,
        version: 0,
        unk_dat01: Seq::new(10, |i: int| 0u8),
        submeshes: Seq::empty(),
        unk_dat02: Seq::new(32, |i: int| 0u8),
    }
}

impl Default for MeshMetadata {
    fn default() -> (r: Self)
        ensures
            r@ == empty_mesh_metadata(),
    {
        let r = MeshMetadata {
            num_submeshes: 0,
            version: 0,
            unk_dat01: zero_bytes::<10>(),
            submeshes: Vec::new(),
            unk_dat02: zero_bytes::<32>(),
        };
        assert(r@.unk_dat01 =~= Seq::new(10, |i: int| 0u8));
        assert(r@.unk_dat02 =~= Seq::new(32, |i: int| 0u8));
        assert(r@.submeshes =~= Seq::<SubmeshView>::empty());
        r
    }
}

pub open spec fn unknown_version_message(v: i32) -> Seq<char> {
    "unknown version: "@ + decimal_text(v as int)
}

pub open spec fn unknown_mesh_data_message() -> Seq<char> {
    "unknown data in mesh metadata"@
}

/// One submesh: seven 16-bit values, a length byte and that many bytes.
pub open spec fn submesh_at(s: Seq<u8>, p: int) -> Result<(SubmeshView, int), Seq<char>> {
    if !avail(s, p, 15) {
        Err(eof_message())
    } else {
        let n = s[p + 14] as int;
        if !avail(s, p + 15, n) {
            Err(eof_message())
        } else {
            Ok((SubmeshView {
                vtx_start: le_u16(s, p),
                vtx_num: le_u16(s, p + 2),
                unk_01: le_u16(s, p + 4),
                unk_02: le_u16(s, p + 6),
                unk_03: le_u16(s, p + 8),
                unk_04: le_u16(s, p + 10),
                unk_05: le_u16(s, p + 12),
                unk_vec: s.subrange(p + 15, p + 15 + n),
            }, p + 15 + n))
        }
    }
}

pub open spec fn submesh_step() -> Step<SubmeshView> {
    |s: Seq<u8>, p: int| submesh_at(s, p)
}

fn read_submesh(r: &mut ByteReader) -> (res: Result<SubmeshDescriptor, LoadError>)
    ensures
        final(r).data() == old(r).data(),
        match submesh_at(old(r).data(), old(r).at()) {
            Ok((d, e)) => res is Ok && res->Ok_0@ == d && final(r).at() == e,
            Err(m) => res is Err && res->Err_0@ == err_view(m, unset_key()),
        },
{
    let vtx_start = r.read_u16()?;
    let vtx_num = r.read_u16()?;
    let unk_01 = r.read_u16()?;
    let unk_02 = r.read_u16()?;
    let unk_03 = r.read_u16()?;
    let unk_04 = r.read_u16()?;
    let unk_05 = r.read_u16()?;
    let n = r.read_u8()?;
    let unk_vec = r.read_exact(n as usize)?;
    Ok(SubmeshDescriptor { vtx_start, vtx_num, unk_01, unk_02, unk_03, unk_04, unk_05, unk_vec })
}

/// A count and a version, which must be 2; up to ten bytes; that many submeshes,
/// appended to those there were; up to 32 closing bytes, which must start with 0x20 or
/// end with 0xFF. What is read before a failure stays.
pub open spec fn mesh_metadata_load(old: MeshMetadataView, s: Seq<u8>) -> Outcome<MeshMetadataView> {
    if s.len() < 1 {
        Outcome::Failed(old, eof_message())
    } else if s.len() < 5 {
        Outcome::Failed(MeshMetadataView { num_submeshes: s[0], ..old }, eof_message())
    } else {
        let ver = le_i32(s, 1);
        let v1 = MeshMetadataView { num_submeshes: s[0], version: ver, ..old };
        if ver != 2 {
            Outcome::Failed(v1, unknown_version_message(ver))
        } else {
            let p1 = 5 + partial_len(s, 5, 10);
            let run = list_run(s, p1, s[0] as nat, submesh_step());
            let v2 = MeshMetadataView {
                unk_dat01: fill_partial(old.unk_dat01, s, 5),
                submeshes: old.submeshes + run.0,
                ..v1
            };
            match run.2 {
                Some(m) => Outcome::Failed(v2, m),
                None => {
                    let d2 = fill_partial(old.unk_dat02, s, run.1);
                    let v3 = MeshMetadataView { unk_dat02: d2, ..v2 };
                    if d2[0] != 0x20 && d2[31] != 0xFF {
                        Outcome::Failed(v3, unknown_mesh_data_message())
                    } else {
                        Outcome::Done(v3)
                    }
                },
            }
        }
    }
    }

impl ArchetypeImpl for MeshMetadata {
    open spec fn load_spec(old: MeshMetadataView, s: Seq<u8>) -> Outcome<MeshMetadataView> {
        mesh_metadata_load(old, s)
    }

    open spec fn unload_spec(old: MeshMetadataView) -> MeshMetadataView {
        empty_mesh_metadata()
    }

    fn load_from_buf(&mut self, buf: &[u8]) -> (r: Result<(), LoadError>) {
        let ghost s = buf@;
        let ghost old_v = self@;
        let mut cursor = ByteReader::new(buf);
        self.num_submeshes = cursor.read_u8()?;
        self.version = cursor.read_i32()?;
        if self.version != 2 {
            proof {
                reveal_strlit("unknown version: ");
            }
            return Err(error_with_decimal("unknown version: ", self.version as i128));
        }
        read_partial_into(&mut cursor, &mut self.unk_dat01);
        let ghost p1 = cursor.at();
        let mut k: u8 = 0;
        assert(self@.submeshes =~= old_v.submeshes + list_run(s, p1, 0, submesh_step()).0);
        while k < self.num_submeshes
            invariant
                cursor.data() == s,
                s == buf@,
                s.len() >= 5,
                old_v == old(self)@,
                self.num_submeshes == s[0],
                self.version == le_i32(s, 1),
                self.version == 2,
                p1 == 5 + partial_len(s, 5, 10),
                self@.unk_dat01 == fill_partial(old_v.unk_dat01, s, 5),
                self@.unk_dat02 == old_v.unk_dat02,
                k <= self.num_submeshes,
                list_run(s, p1, k as nat, submesh_step()).2 is None,
                list_run(s, p1, k as nat, submesh_step()).1 == cursor.at(),
                self@.submeshes == old_v.submeshes + list_run(s, p1, k as nat, submesh_step()).0,
            decreases self.num_submeshes - k,
        {
            let ghost prev = list_run(s, p1, k as nat, submesh_step());
            match read_submesh(&mut cursor) {
                Ok(d) => {
                    let ghost before = self@.submeshes;
                    let ghost dv = d@;
                    self.submeshes.push(d);
                    k = k + 1;
                    assert(self@.submeshes =~= before.push(dv));
                    assert(before.push(dv) =~= old_v.submeshes + prev.0.push(dv));
                },
                Err(e) => {
                    proof {
                        lemma_list_run_stops(s, p1, (k + 1) as nat, self.num_submeshes as nat, submesh_step());
                    }
                    return Err(e);
                },
            }
        }
        read_partial_into(&mut cursor, &mut self.unk_dat02);
        if self.unk_dat02[0] != 0x20 && self.unk_dat02[31] != 0xFF {
            proof {
                reveal_strlit("unknown data in mesh metadata");
            }
            return Err(LoadError::from_str_message("unknown data in mesh metadata"));
        }
        Ok(())
    }

    fn unload(&mut self) {
        *self = MeshMetadata::default()
    }
}

/// Loading never panics.
pub proof fn lemma_mesh_metadata_load_total(old: MeshMetadataView, s: Seq<u8>)
    ensures
        !(mesh_metadata_load(old, s) is Panics),
{
}

/// A triangle: three vertex indices.
#[derive(Debug, Clone, Copy, PartialEq, Eq, Structural)]
pub struct FaceData {
    pub f0: u16,
    pub f1: u16,
    pub f2: u16,
}

/// The raw 32-byte record of each vertex. Its first twelve bytes are six signed 16-bit
/// values: a position in snorm16 and its scale, then a texture coordinate in 1/1024 units.
#[derive(Debug)]
pub struct VertexData {
    pub bufs: Vec<[u8; 32]>,
}

impl View for VertexData {
    type V = Seq<Seq<u8>>;

    open spec fn view(&self) -> Seq<Seq<u8>> {
        self.bufs@.map_values(|b: [u8; 32]| b@)
    }
}

/// The six signed values at the start of a vertex record.
pub open spec fn vertex_components(b: Seq<u8>) -> Seq<i16> {
    seq![le_i16(b, 0), le_i16(b, 2), le_i16(b, 4), le_i16(b, 6), le_i16(b, 8), le_i16(b, 10)]
}

impl VertexData {
    /// The position (x, y, z, scale) and texture coordinate (u, v) of vertex `i`, as the
    /// signed values they are stored as.
    pub fn components(&self, i: usize) -> (r: [i16; 6])
        requires
            i < self@.len(),
        ensures
            r@ == vertex_components(self@[i as int]),
    {
        let b: &[u8; 32] = &self.bufs[i];
        let mut c = ByteReader::new(b);
        let x = unwrap_read(c.read_i16());
        let y = unwrap_read(c.read_i16());
        let z = unwrap_read(c.read_i16());
        let w = unwrap_read(c.read_i16());
        let u = unwrap_read(c.read_i16());
        let v = unwrap_read(c.read_i16());
        let r = [x, y, z, w, u, v];
        assert(r@ =~= vertex_components(self@[i as int]));
        r
    }
}

/// The geometry of a mesh: a header, raw vertex records and triangles. The pivot and the
/// scale are 32-bit floats kept as their bit patterns.
#[derive(Debug)]
pub struct MeshData {
    pub unk_01: u32,
    pub unk_02: u32,
    pub unk_03: u8,
    pub num_vertices: u16,
    pub num_indices: u32,
    pub data_offset: u32,
    pub old_num_submeshes: u16,
    pub old_submesh_size: u32,
    pub num_submeshes: u16,
    pub pivot_offset: RawVec3,
    pub uniform_scale: u32,
    pub vertex_data: VertexData,
    pub faces: Vec<FaceData>,
}

pub struct MeshDataView {
    pub unk_01: u32,
    pub unk_02: u32,
    pub unk_03: u8,
    pub num_vertices: u16,
    pub num_indices: u32,
    pub data_offset: u32,
    pub old_num_submeshes: u16,
    pub old_submesh_size: u32,
    pub num_submeshes: u16,
    pub pivot_offset: RawVec3,
    pub uniform_scale: u32,
    pub bufs: Seq<Seq<u8>>,
    pub faces: Seq<FaceData>,
}

impl View for MeshData {
    type V = MeshDataView;

    open spec fn view(&self) -> MeshDataView {
        MeshDataView {
            unk_01: self.unk_01,
            unk_02: self.unk_02,
            unk_03: self.unk_03,
            num_vertices: self.num_vertices,
            num_indices: self.num_indices,
            data_offset: self.data_offset,
            old_num_submeshes: self.old_num_submeshes,
            old_submesh_size: self.old_submesh_size,
            num_submeshes: self.num_submeshes,
            pivot_offset: self.pivot_offset,
            uniform_scale: self.uniform_scale,
            bufs: self.vertex_data@,
            faces: self.faces@,
        }
    }
}

pub open spec fn empty_mesh_data() -> MeshDataView {
    MeshDataView {
        unk_01: 0,
        unk_02: 0,
        unk_03: 0,
        num_vertices: 0,
        num_indices: 0,
        data_offset: 0,
        old_num_submeshes: 0,
        old_submesh_size: 0,
        num_submeshes: 0,
        pivot_offset: RawVec3 { x: 0, y: 0, z: 0 },
        uniform_scale: 0,
        bufs: Seq::empty(),
        faces: Seq::empty(),
    }
}

impl Default for MeshData {
    fn default() -> (r: Self)
        ensures
            r@ == empty_mesh_data(),
    {
        let r = MeshData {
            unk_01: 0,
            unk_02: 0,
            unk_03: 0,
            num_vertices: 0,
            num_indices: 0,
            data_offset: 0,
            old_num_submeshes: 0,
            old_submesh_size: 0,
            num_submeshes: 0,
            pivot_offset: RawVec3::zero(),
            uniform_scale: 0,
            vertex_data: VertexData { bufs: Vec::new() },
            faces: Vec::new(),
        };
        assert(r@.bufs =~= Seq::<Seq<u8>>::empty());
        r
    }
}

pub open spec fn zeros32() -> Seq<u8> {
    Seq::new(32, |i: int| 0u8)
}

/// The vertex records: `n` records of 32 bytes from `q`, each read as far as the data
/// goes and padded with zeros.
pub open spec fn vertex_records(s: Seq<u8>, q: int, n: nat) -> Seq<Seq<u8>> {
    Seq::new(n, |i: int| fill_partial(zeros32(), s, q + 32 * i))
}

pub open spec fn min_int(a: int, b: int) -> int {
    if a < b { a } else { b }
}

pub open spec fn face_at(s: Seq<u8>, p: int) -> Result<(FaceData, int), Seq<char>> {
    if !avail(s, p, 6) {
        Err(eof_message())
    } else {
        Ok((FaceData { f0: le_u16(s, p), f1: le_u16(s, p + 2), f2: le_u16(s, p + 4) }, p + 6))
    }
}

pub open spec fn face_step() -> Step<FaceData> {
    |s: Seq<u8>, p: int| face_at(s, p)
}

fn read_face(r: &mut ByteReader) -> (res: Result<FaceData, LoadError>)
    ensures
        final(r).data() == old(r).data(),
        match face_at(old(r).data(), old(r).at()) {
            Ok((f, e)) => res == Ok::<FaceData, LoadError>(f) && final(r).at() == e,
            Err(m) => res is Err && res->Err_0@ == err_view(m, unset_key()),
        },
{
    let f0 = r.read_u16()?;
    let f1 = r.read_u16()?;
    let f2 = r.read_u16()?;
    Ok(FaceData { f0, f1, f2 })
}

/// The header of mesh data as far as `s` holds it: the fields are read in order, at
/// offsets 0, 4, 8, 9, 11, 15, 0x19, 0x1B, 0x21, 0x37 and 0x43, each kept once it is read.
pub open spec fn mesh_header(old: MeshDataView, s: Seq<u8>) -> (MeshDataView, bool) {
    if s.len() < 4 {
        (old, false)
    } else {
        let a = MeshDataView { unk_01: le_u32(s, 0), ..old };
        if s.len() < 8 {
            (a, false)
        } else {
            let b = MeshDataView { unk_02: le_u32(s, 4), ..a };
            if s.len() < 9 {
                (b, false)
            } else {
                let c = MeshDataView { unk_03: s[8], ..b };
                if s.len() < 11 {
                    (c, false)
                } else {
                    let d = MeshDataView { num_vertices: le_u16(s, 9), ..c };
                    if s.len() < 15 {
                        (d, false)
                    } else {
                        let e = MeshDataView { num_indices: le_u32(s, 11), ..d };
                        if s.len() < 19 {
                            (e, false)
                        } else {
                            let f = MeshDataView { data_offset: le_u32(s, 15), ..e };
                            mesh_header_rest(f, s)
                        }
                    }
                }
            }
        }
    }
}

pub open spec fn mesh_header_rest(f: MeshDataView, s: Seq<u8>) -> (MeshDataView, bool) {
    if s.len() < 27 {
        (f, false)
    } else {
        let g = MeshDataView { old_num_submeshes: le_u16(s, 25), ..f };
        if s.len() < 31 {
            (g, false)
        } else {
            let h = MeshDataView { old_submesh_size: le_u32(s, 27), ..g };
            if s.len() < 35 {
                (h, false)
            } else {
                let i = MeshDataView { num_submeshes: le_u16(s, 33), ..h };
                if s.len() < 67 {
                    (i, false)
                } else {
                    let j = MeshDataView { pivot_offset: vec3_at(s, 55), ..i };
                    if s.len() < 71 {
                        (j, false)
                    } else {
                        (MeshDataView { uniform_scale: le_u32(s, 67), ..j }, true)
                    }
                }
            }
        }
    }
}

/// The header; then, from 0x47 past the data offset, the vertex records and
/// `num_indices / 3` triangles, which replace those there were. A data offset whose
/// sum with 0x47 does not fit in 32 bits is an overflow.
pub open spec fn mesh_data_load(old: MeshDataView, s: Seq<u8>) -> Outcome<MeshDataView> {
    let (h, complete) = mesh_header(old, s);
    if !complete {
        Outcome::Failed(h, eof_message())
    } else if h.data_offset > 0xFFFF_FFFF - 0x47 {
        Outcome::Panics
    } else {
        let q = 0x47 + h.data_offset;
        let nv = h.num_vertices as nat;
        let fp = min_int(q + 32 * nv, s.len() as int);
        let run = list_run(s, fp, (h.num_indices / 3) as nat, face_step());
        let v = MeshDataView { bufs: vertex_records(s, q, nv), faces: run.0, ..h };
        match run.2 {
            Some(m) => Outcome::Failed(v, m),
            None => Outcome::Done(v),
        }
    }
    }

impl ArchetypeImpl for MeshData {
    open spec fn load_spec(old: MeshDataView, s: Seq<u8>) -> Outcome<MeshDataView> {
        mesh_data_load(old, s)
    }

    open spec fn unload_spec(old: MeshDataView) -> MeshDataView {
        empty_mesh_data()
    }

    fn load_from_buf(&mut self, buf: &[u8]) -> (r: Result<(), LoadError>) {
        let ghost s = buf@;
        let mut cursor = ByteReader::new(buf);
        self.read_header(&mut cursor)?;
        let q: u32 = 0x47 + self.data_offset;
        let qz = q as usize;
        let len = buf.len();
        cursor.set_position(if qz > len { len } else { qz });
        let nv = self.num_vertices;
        let mut bufs: Vec<[u8; 32]> = Vec::new();
        let mut i: u16 = 0;
        assert(bufs@.map_values(|b: [u8; 32]| b@) =~= vertex_records(s, q as int, 0));
        while i < nv
            invariant
                cursor.data() == s,
                s == buf@,
                len == s.len(),
                i <= nv,
                cursor.at() == min_int(q + 32 * i, s.len() as int),
                bufs@.map_values(|b: [u8; 32]| b@) == vertex_records(s, q as int, i as nat),
            decreases nv - i,
        {
            let mut vbuf = zero_bytes::<32>();
            assert(vbuf@ =~= zeros32());
            let ghost at = cursor.at();
            read_partial_into(&mut cursor, &mut vbuf);
            assert(fill_partial(zeros32(), s, at) =~= fill_partial(zeros32(), s, q + 32 * i));
            let ghost before = bufs@.map_values(|b: [u8; 32]| b@);
            let ghost vb = vbuf@;
            bufs.push(vbuf);
            assert(bufs@.map_values(|b: [u8; 32]| b@) =~= before.push(vb));
            assert(before.push(vb) =~= vertex_records(s, q as int, (i + 1) as nat));
            i = i + 1;
        }
        self.vertex_data = VertexData { bufs };
        self.faces = Vec::new();
        let ghost fp = cursor.at();
        let ghost hv = self@;
        assert(hv == (MeshDataView {
            bufs: vertex_records(s, q as int, nv as nat),
            faces: Seq::empty(),
            ..mesh_header(old(self)@, s).0
        }));
        let nf = self.num_indices / 3;
        let mut k: u32 = 0;
        assert(self.faces@ =~= list_run(s, fp, 0, face_step()).0);
        while k < nf
            invariant
                cursor.data() == s,
                s == buf@,
                nf == self.num_indices / 3,
                self@ == (MeshDataView { faces: self.faces@, ..hv }),
                fp == min_int(q + 32 * nv, s.len() as int),
                mesh_header(old(self)@, s).1,
                q == 0x47 + mesh_header(old(self)@, s).0.data_offset,
                nv == mesh_header(old(self)@, s).0.num_vertices,
                hv == (MeshDataView {
                    bufs: vertex_records(s, q as int, nv as nat),
                    faces: Seq::empty(),
                    ..mesh_header(old(self)@, s).0
                }),
                k <= nf,
                list_run(s, fp, k as nat, face_step()).2 is None,
                list_run(s, fp, k as nat, face_step()).1 == cursor.at(),
                self.faces@ == list_run(s, fp, k as nat, face_step()).0,
            decreases nf - k,
        {
            let ghost prev = list_run(s, fp, k as nat, face_step());
            match read_face(&mut cursor) {
                Ok(f) => {
                    self.faces.push(f);
                    k = k + 1;
                },
                Err(e) => {
                    proof {
                        lemma_list_run_stops(s, fp, (k + 1) as nat, nf as nat, face_step());
                    }
                    return Err(e);
                },
            }
        }
        Ok(())
    }

    fn unload(&mut self) {
        *self = MeshData::default()
    }
}

impl MeshData {
    /// Reads the header fields in order, keeping each one that is read.
    fn read_header(&mut self, cursor: &mut ByteReader) -> (r: Result<(), LoadError>)
        requires
            old(cursor).at() == 0,
        ensures
            final(cursor).data() == old(cursor).data(),
            final(self)@ == mesh_header(old(self)@, old(cursor).data()).0,
            r is Ok <==> mesh_header(old(self)@, old(cursor).data()).1,
            r matches Err(e) ==> e@ == err_view(eof_message(), unset_key()),
    {
        self.unk_01 = cursor.read_u32()?;
        self.unk_02 = cursor.read_u32()?;
        self.unk_03 = cursor.read_u8()?;
        self.num_vertices = cursor.read_u16()?;
        self.num_indices = cursor.read_u32()?;
        self.data_offset = cursor.read_u32()?;
        cursor.set_position(0x19);
        self.old_num_submeshes = cursor.read_u16()?;
        self.old_submesh_size = cursor.read_u32()?;
        cursor.set_position(0x21);
        self.num_submeshes = cursor.read_u16()?;
        cursor.set_position(0x37);
        self.pivot_offset = read_vec3(cursor)?;
        self.uniform_scale = cursor.read_u32()?;
        Ok(())
    }
}

} // verus!

use vstd::prelude::*;
use crate::bytes::{ByteReader, avail, le_u16, partial_len, fill_partial, read_partial_into, zero_bytes};
use crate::error::{LoadError, eof_message};
use crate::objects::common::{
    ArchetypeImpl, Outcome, outcome_of, keyless, Step, list_run, lemma_list_run_stops, RawVec3,
    read_vec3, vec3_at,
};

verus! {

/// A vertex table: a four-byte header and one position (float bit patterns) per vertex.
pub struct Vxt {
    pub header: [u8; 4],
    pub vxt: Vec<RawVec3>,
}

pub struct VxtView {
    pub header: Seq<u8>,
    pub vxt: Seq<RawVec3>,
}

impl View for Vxt {
    type V = VxtView;

    open spec fn view(&self) -> VxtView {
        VxtView { header: self.header@, vxt: self.vxt@ }
    }
}

pub open spec fn empty_vxt() -> VxtView {
    VxtView { header: seq![0u8, 0, 0, 0], vxt: Seq::empty() }
}

impl Default for Vxt {
    fn default() -> (r: Self)
        ensures
            r@ == empty_vxt(),
    {
        let r = Vxt { header: zero_bytes::<4>(), vxt: Vec::new() };
        assert(r@.header =~= seq![0u8, 0, 0, 0]);
        r
    }
}

pub open spec fn vxt_vertex_at(s: Seq<u8>, p: int) -> Result<(RawVec3, int), Seq<char>> {
    if !avail(s, p, 12) {
        Err(eof_message())
    } else {
        Ok((vec3_at(s, p), p + 12))
    }
}

pub open spec fn vxt_vertex_step() -> Step<RawVec3> {
    |s: Seq<u8>, p: int| vxt_vertex_at(s, p)
}

/// Up to four header bytes (as many as there are), a count, then that many positions,
/// which replace those there were; what is read before a failure stays.
pub open spec fn vxt_load(old: VxtView, s: Seq<u8>) -> Outcome<VxtView> {
    let h = fill_partial(old.header, s, 0);
    let p = partial_len(s, 0, 4);
    if !avail(s, p, 2) {
        Outcome::Failed(VxtView { header: h, ..old }, eof_message())
    } else {
        let run = list_run(s, p + 2, le_u16(s, p) as nat, vxt_vertex_step());
        let v = VxtView { header: h, vxt: run.0 };
        match run.2 {
            Some(m) => Outcome::Failed(v, m),
            None => Outcome::Done(v),
        }
    }
    }

impl ArchetypeImpl for Vxt {
    open spec fn load_spec(old: VxtView, s: Seq<u8>) -> Outcome<VxtView> {
        vxt_load(old, s)
    }

    open spec fn unload_spec(old: VxtView) -> VxtView {
        empty_vxt()
    }

    fn load_from_buf(&mut self, buf: &[u8]) -> (r: Result<(), LoadError>) {
        let ghost s = buf@;
        let mut cursor = ByteReader::new(buf);
        read_partial_into(&mut cursor, &mut self.header);
        let ghost p = cursor.at();
        let num_vtx = cursor.read_u16()?;
        self.vxt = Vec::new();
        let mut k: u16 = 0;
        assert(self@.vxt =~= list_run(s, p + 2, 0, vxt_vertex_step()).0);
        while k < num_vtx
            invariant
                cursor.data() == s,
                s == buf@,
                p == partial_len(s, 0, 4),
                avail(s, p, 2),
                self@.header == fill_partial(old(self)@.header, s, 0),
                num_vtx == le_u16(s, p),
                k <= num_vtx,
                list_run(s, p + 2, k as nat, vxt_vertex_step()).2 is None,
                list_run(s, p + 2, k as nat, vxt_vertex_step()).1 == cursor.at(),
                self@.vxt == list_run(s, p + 2, k as nat, vxt_vertex_step()).0,
            decreases num_vtx - k,
        {
            match read_vec3(&mut cursor) {
                Ok(v) => {
                    self.vxt.push(v);
                    k = k + 1;
                },
                Err(e) => {
                    proof {
                        lemma_list_run_stops(s, p + 2, (k + 1) as nat, num_vtx as nat, vxt_vertex_step());
                    }
                    return Err(e);
                },
            }
        }
        Ok(())
    }

    fn unload(&mut self) {
        *self = Vxt::default()
    }
}

/// Loading never panics.
pub proof fn lemma_vxt_load_total(old: VxtView, s: Seq<u8>)
    ensures
        !(vxt_load(old, s) is Panics),
{
}

} // verus!

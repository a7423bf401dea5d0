use vstd::prelude::*;
use crate::bytes::{ByteReader, avail, le_u16};
use crate::error::{LoadError, eof_message};
use crate::objects::common::{
    ArchetypeImpl, Outcome, outcome_of, keyless, Step, list_run, lemma_list_run_stops,
};

verus! {

/// Copies a read of four bytes into an array.
pub fn array4(v: &Vec<u8>) -> (r: [u8; 4])
    requires
        v@.len() == 4,
    ensures
        r@ == v@,
{
    let r = [v[0], v[1], v[2], v[3]];
    assert(r@ =~= v@);
    r
}

/// Vertex colours: one RGBA byte quadruple per vertex (each channel is the byte over 255).
pub struct VertexColors {
    pub colors: Vec<[u8; 4]>,
}

impl View for VertexColors {
    type V = Seq<Seq<u8>>;

    open spec fn view(&self) -> Seq<Seq<u8>> {
        self.colors@.map_values(|c: [u8; 4]| c@)
    }
}

impl Default for VertexColors {
    fn default() -> (r: Self)
        ensures
            r@ == Seq::<Seq<u8>>::empty(),
    {
        let r = VertexColors { colors: Vec::new() };
        assert(r@ =~= Seq::<Seq<u8>>::empty());
        r
    }
}

pub open spec fn color_at(s: Seq<u8>, p: int) -> Result<(Seq<u8>, int), Seq<char>> {
    if !avail(s, p, 4) {
        Err(eof_message())
    } else {
        Ok((s.subrange(p, p + 4), p + 4))
    }
}

pub open spec fn color_step() -> Step<Seq<u8>> {
    |s: Seq<u8>, p: int| color_at(s, p)
}

/// A count, then that many colours, which replace those there were; what is read
/// before a failure stays.
pub open spec fn vertex_colors_load(old: Seq<Seq<u8>>, s: Seq<u8>) -> Outcome<Seq<Seq<u8>>> {
    if s.len() < 2 {
        Outcome::Failed(old, eof_message())
    } else {
        let run = list_run(s, 2, le_u16(s, 0) as nat, color_step());
        match run.2 {
            Some(m) => Outcome::Failed(run.0, m),
            None => Outcome::Done(run.0),
        }
    }
    }

impl ArchetypeImpl for VertexColors {
    open spec fn load_spec(old: Seq<Seq<u8>>, s: Seq<u8>) -> Outcome<Seq<Seq<u8>>> {
        vertex_colors_load(old, s)
    }

    open spec fn unload_spec(old: Seq<Seq<u8>>) -> Seq<Seq<u8>> {
        Seq::empty()
    }

    fn load_from_buf(&mut self, buf: &[u8]) -> (r: Result<(), LoadError>) {
        let ghost s = buf@;
        let mut cursor = ByteReader::new(buf);
        let num_vtx = cursor.read_u16()?;
        self.colors = Vec::new();
        let mut k: u16 = 0;
        assert(self@ =~= list_run(s, 2, 0, color_step()).0);
        while k < num_vtx
            invariant
                cursor.data() == s,
                s == buf@,
                s.len() >= 2,
                num_vtx == le_u16(s, 0),
                k <= num_vtx,
                list_run(s, 2, k as nat, color_step()).2 is None,
                list_run(s, 2, k as nat, color_step()).1 == cursor.at(),
                self@ == list_run(s, 2, k as nat, color_step()).0,
            decreases num_vtx - k,
        {
            let ghost prev = list_run(s, 2, k as nat, color_step());
            match cursor.read_exact(4) {
                Ok(d) => {
                    let c = array4(&d);
                    let ghost before = self@;
                    self.colors.push(c);
                    k = k + 1;
                    assert(self@ =~= before.push(d@));
                },
                Err(e) => {
                    proof {
                        lemma_list_run_stops(s, 2, (k + 1) as nat, num_vtx as nat, color_step());
                    }
                    return Err(e);
                },
            }
        }
        Ok(())
    }

    fn unload(&mut self) {
        *self = VertexColors::default()
    }
}

/// Loading never panics.
pub proof fn lemma_vertex_colors_load_total(old: Seq<Seq<u8>>, s: Seq<u8>)
    ensures
        !(vertex_colors_load(old, s) is Panics),
{
}

} // verus!

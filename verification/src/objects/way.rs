use vstd::prelude::*;
use crate::bytes::{ByteReader, avail, le_u16, zero_bytes};
use crate::error::{LoadError, eof_message, err_view, unset_key};
use crate::objects::common::{
    ArchetypeImpl, Outcome, outcome_of, keyless, Step, list_run, lemma_list_run_stops,
};

verus! {

/// Copies the bytes of a read of ten into an array.
pub fn array10(v: &Vec<u8>) -> (r: [u8; 10])
    requires
        v@.len() == 10,
    ensures
        r@ == v@,
{
    let mut a = zero_bytes::<10>();
    let mut i: usize = 0;
    while i < 10
        invariant
            0 <= i <= 10,
            v@.len() == 10,
            forall|j: int| 0 <= j < i ==> a@[j] == v@[j],
        decreases 10 - i,
    {
        a[i] = v[i];
        i = i + 1;
    }
    assert(a@ =~= v@);
    a
}

/// A way: a header, a count and a ten-byte record per game object of the way.
#[derive(Debug)]
pub struct Way {
    pub unk_dat01: [u8; 13],
    pub num_way_gaos: u16,
    pub way_datas: Vec<[u8; 10]>,
}

pub struct WayView {
    pub unk_dat01: Seq<u8>,
    pub num_way_gaos: u16,
    pub way_datas: Seq<Seq<u8>>,
}

impl View for Way {
    type V = WayView;

    open spec fn view(&self) -> WayView {
        WayView {
            unk_dat01: self.unk_dat01@,
            num_way_gaos: self.num_way_gaos,
            way_datas: self.way_datas@.map_values(|d: [u8; 10]| d@),
        }
    }
}

impl Default for Way {
    fn default() -> (r: Self)
        ensures
            r@ == (WayView { unk_dat01: Seq::new(13, |i: int| 0u8), num_way_gaos: 0, way_datas: Seq::empty() }),
    {
        let r = Way { unk_dat01: zero_bytes::<13>(), num_way_gaos: 0, way_datas: Vec::new() };
        assert(r@.unk_dat01 =~= Seq::new(13, |i: int| 0u8));
        assert(r@.way_datas =~= Seq::<Seq<u8>>::empty());
        r
    }
}

pub open spec fn way_data_at(s: Seq<u8>, p: int) -> Result<(Seq<u8>, int), Seq<char>> {
    if !avail(s, p, 10) {
        Err(eof_message())
    } else {
        Ok((s.subrange(p, p + 10), p + 10))
    }
}

pub open spec fn way_data_step() -> Step<Seq<u8>> {
    |s: Seq<u8>, p: int| way_data_at(s, p)
}

impl ArchetypeImpl for Way {
    /// Thirteen header bytes, a count, and that many ten-byte records appended to those
    /// already there; what is read before a failure stays.
    open spec fn load_spec(old: WayView, s: Seq<u8>) -> Outcome<WayView> {
        if s.len() < 13 {
            Outcome::Failed(old, eof_message())
        } else if s.len() < 15 {
            Outcome::Failed(WayView { unk_dat01: s.subrange(0, 13), ..old }, eof_message())
        } else {
            let run = list_run(s, 15, le_u16(s, 13) as nat, way_data_step());
            let v = WayView {
                unk_dat01: s.subrange(0, 13),
                num_way_gaos: le_u16(s, 13),
                way_datas: old.way_datas + run.0,
            };
            match run.2 {
                Some(m) => Outcome::Failed(v, m),
                None => Outcome::Done(v),
            }
        }
    }

    open spec fn unload_spec(old: WayView) -> WayView {
        WayView { way_datas: Seq::empty(), ..old }
    }

    fn load_from_buf(&mut self, buf: &[u8]) -> (r: Result<(), LoadError>) {
        let ghost s = buf@;
        let ghost old_v = self@;
        let mut cursor = ByteReader::new(buf);
        let head = cursor.read_exact(13)?;
        let mut i: usize = 0;
        while i < 13
            invariant
                0 <= i <= 13,
                head@.len() == 13,
                forall|j: int| 0 <= j < i ==> self.unk_dat01@[j] == head@[j],
                self.way_datas@ == old(self).way_datas@,
                self.num_way_gaos == old(self).num_way_gaos,
            decreases 13 - i,
        {
            self.unk_dat01[i] = head[i];
            i = i + 1;
        }
        assert(self.unk_dat01@ =~= head@);
        self.num_way_gaos = cursor.read_u16()?;
        let mut k: u16 = 0;
        assert(self@.way_datas =~= old_v.way_datas + list_run(s, 15, 0, way_data_step()).0);
        while k < self.num_way_gaos
            invariant
                cursor.data() == s,
                s == buf@,
                s.len() >= 15,
                old_v == old(self)@,
                self@.unk_dat01 == s.subrange(0, 13),
                self.num_way_gaos == le_u16(s, 13),
                k <= self.num_way_gaos,
                list_run(s, 15, k as nat, way_data_step()).2 is None,
                list_run(s, 15, k as nat, way_data_step()).1 == cursor.at(),
                self@.way_datas == old_v.way_datas + list_run(s, 15, k as nat, way_data_step()).0,
            decreases self.num_way_gaos - k,
        {
            let ghost prev = list_run(s, 15, k as nat, way_data_step());
            match cursor.read_exact(10) {
                Ok(d) => {
                    let a = array10(&d);
                    let ghost before = self@.way_datas;
                    self.way_datas.push(a);
                    k = k + 1;
                    assert(self@.way_datas =~= before.push(d@));
                    assert(before.push(d@) =~= old_v.way_datas + prev.0.push(d@));
                },
                Err(e) => {
                    proof {
                        lemma_list_run_stops(s, 15, (k + 1) as nat, self.num_way_gaos as nat, way_data_step());
                    }
                    return Err(e);
                },
            }
        }
        Ok(())
    }

    fn unload(&mut self) {
        self.way_datas.clear();
        assert(self@.way_datas =~= Seq::<Seq<u8>>::empty());
    }
}

} // verus!

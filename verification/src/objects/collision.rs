use vstd::prelude::*;
use crate::bytes::{ByteReader, avail, le_u16, le_u32};
use crate::error::{LoadError, eof_message, err_view, unset_key};
use crate::objects::common::{
    ArchetypeImpl, Outcome, outcome_of, keyless, Step, list_run, lemma_list_run_stops, RawVec3,
    read_vec3, vec3_at,
};

verus! {

/// A collision object: positions (float bit patterns) and quads of indices.
pub struct CollisionObject {
    pub positions: Vec<RawVec3>,
    pub indices: Vec<[u16; 4]>,
}

pub struct CollisionObjectView {
    pub positions: Seq<RawVec3>,
    pub indices: Seq<Seq<u16>>,
}

impl View for CollisionObject {
    type V = CollisionObjectView;

    open spec fn view(&self) -> CollisionObjectView {
        CollisionObjectView { positions: self.positions@, indices: self.indices@.map_values(|q: [u16; 4]| q@) }
    }
}

pub open spec fn empty_collision() -> CollisionObjectView {
    CollisionObjectView { positions: Seq::empty(), indices: Seq::empty() }
}

impl Default for CollisionObject {
    fn default() -> (r: Self)
        ensures
            r@ == empty_collision(),
    {
        let r = CollisionObject { positions: Vec::new(), indices: Vec::new() };
        assert(r@.indices =~= Seq::<Seq<u16>>::empty());
        r
    }
}

pub open spec fn position_at(s: Seq<u8>, p: int) -> Result<(RawVec3, int), Seq<char>> {
    if !avail(s, p, 12) {
        Err(eof_message())
    } else {
        Ok((vec3_at(s, p), p + 12))
    }
}

pub open spec fn quad_at(s: Seq<u8>, p: int) -> Result<(Seq<u16>, int), Seq<char>> {
    if !avail(s, p, 8) {
        Err(eof_message())
    } else {
        Ok((seq![le_u16(s, p), le_u16(s, p + 2), le_u16(s, p + 4), le_u16(s, p + 6)], p + 8))
    }
}

pub open spec fn position_step() -> Step<RawVec3> {
    |s: Seq<u8>, p: int| position_at(s, p)
}

pub open spec fn quad_step() -> Step<Seq<u16>> {
    |s: Seq<u8>, p: int| quad_at(s, p)
}

fn read_quad(r: &mut ByteReader) -> (res: Result<[u16; 4], LoadError>)
    ensures
        final(r).data() == old(r).data(),
        match quad_at(old(r).data(), old(r).at()) {
            Ok((q, e)) => res is Ok && res->Ok_0@ == q && final(r).at() == e,
            Err(m) => res is Err && res->Err_0@ == err_view(m, unset_key()),
        },
{
    let a = r.read_u16()?;
    let b = r.read_u16()?;
    let c = r.read_u16()?;
    let d = r.read_u16()?;
    let q = [a, b, c, d];
    assert(q@ =~= seq![a, b, c, d]);
    Ok(q)
}

impl ArchetypeImpl for CollisionObject {
    /// A count and that many positions, then a count and that many index quads, each
    /// appended to those already there; what is read before a failure stays.
    open spec fn load_spec(old: CollisionObjectView, s: Seq<u8>) -> Outcome<CollisionObjectView> {
        if s.len() < 2 {
            Outcome::Failed(old, eof_message())
        } else {
            let prun = list_run(s, 2, le_u16(s, 0) as nat, position_step());
            let v1 = CollisionObjectView { positions: old.positions + prun.0, ..old };
            match prun.2 {
                Some(m) => Outcome::Failed(v1, m),
                None => if !avail(s, prun.1, 2) {
                    Outcome::Failed(v1, eof_message())
                } else {
                    let irun = list_run(s, prun.1 + 2, le_u16(s, prun.1) as nat, quad_step());
                    let v2 = CollisionObjectView { indices: old.indices + irun.0, ..v1 };
                    match irun.2 {
                        Some(m) => Outcome::Failed(v2, m),
                        None => Outcome::Done(v2),
                    }
                },
            }
        }
    }

    open spec fn unload_spec(old: CollisionObjectView) -> CollisionObjectView {
        empty_collision()
    }

    fn load_from_buf(&mut self, buf: &[u8]) -> (r: Result<(), LoadError>) {
        let ghost s = buf@;
        let ghost old_v = self@;
        let mut cursor = ByteReader::new(buf);
        let num_pos = cursor.read_u16()?;
        let mut k: u16 = 0;
        assert(self@.positions =~= old_v.positions + list_run(s, 2, 0, position_step()).0);
        while k < num_pos
            invariant
                cursor.data() == s,
                s == buf@,
                s.len() >= 2,
                old_v == old(self)@,
                num_pos == le_u16(s, 0),
                self@.indices == old_v.indices,
                k <= num_pos,
                list_run(s, 2, k as nat, position_step()).2 is None,
                list_run(s, 2, k as nat, position_step()).1 == cursor.at(),
                self@.positions == old_v.positions + list_run(s, 2, k as nat, position_step()).0,
            decreases num_pos - k,
        {
            let ghost prev = list_run(s, 2, k as nat, position_step());
            match read_vec3(&mut cursor) {
                Ok(p) => {
                    let ghost before = self@.positions;
                    self.positions.push(p);
                    k = k + 1;
                    assert(self@.positions =~= before.push(p));
                    assert(before.push(p) =~= old_v.positions + prev.0.push(p));
                },
                Err(e) => {
                    proof {
                        lemma_list_run_stops(s, 2, (k + 1) as nat, num_pos as nat, position_step());
                    }
                    return Err(e);
                },
            }
        }
        let ghost p1 = cursor.at();
        let num_ind = cursor.read_u16()?;
        let mut j: u16 = 0;
        assert(self@.indices =~= old_v.indices + list_run(s, p1 + 2, 0, quad_step()).0);
        while j < num_ind
            invariant
                cursor.data() == s,
                s == buf@,
                s.len() >= 2,
                old_v == old(self)@,
                list_run(s, 2, le_u16(s, 0) as nat, position_step()).2 is None,
                list_run(s, 2, le_u16(s, 0) as nat, position_step()).1 == p1,
                self@.positions == old_v.positions + list_run(s, 2, le_u16(s, 0) as nat, position_step()).0,
                avail(s, p1, 2),
                num_ind == le_u16(s, p1),
                j <= num_ind,
                list_run(s, p1 + 2, j as nat, quad_step()).2 is None,
                list_run(s, p1 + 2, j as nat, quad_step()).1 == cursor.at(),
                self@.indices == old_v.indices + list_run(s, p1 + 2, j as nat, quad_step()).0,
            decreases num_ind - j,
        {
            let ghost prev = list_run(s, p1 + 2, j as nat, quad_step());
            match read_quad(&mut cursor) {
                Ok(q) => {
                    let ghost before = self@.indices;
                    self.indices.push(q);
                    j = j + 1;
                    assert(self@.indices =~= before.push(q@));
                    assert(before.push(q@) =~= old_v.indices + prev.0.push(q@));
                },
                Err(e) => {
                    proof {
                        lemma_list_run_stops(s, p1 + 2, (j + 1) as nat, num_ind as nat, quad_step());
                    }
                    return Err(e);
                },
            }
        }
        Ok(())
    }

    fn unload(&mut self) {
        *self = CollisionObject::default()
    }
}

/// A collision object table: how many collision objects it lists.
pub struct CollisionObjectTable {
    pub num_collisions: u32,
}

impl View for CollisionObjectTable {
    type V = u32;

    open spec fn view(&self) -> u32 {
        self.num_collisions
    }
}

impl Default for CollisionObjectTable {
    fn default() -> (r: Self)
        ensures
            r@ == 0,
    {
        CollisionObjectTable { num_collisions: 0 }
    }
}

impl ArchetypeImpl for CollisionObjectTable {
    open spec fn load_spec(old: u32, s: Seq<u8>) -> Outcome<u32> {
        if s.len() < 4 {
            Outcome::Failed(old, eof_message())
        } else {
            Outcome::Done(le_u32(s, 0))
        }
    }

    open spec fn unload_spec(old: u32) -> u32 {
        0
    }

    fn load_from_buf(&mut self, buf: &[u8]) -> (r: Result<(), LoadError>) {
        self.num_collisions = ByteReader::new(buf).read_u32()?;
        Ok(())
    }

    fn unload(&mut self) {
        *self = CollisionObjectTable::default()
    }
}

} // verus!

use vstd::prelude::*;
use crate::bytes::{ByteReader, avail, le_u32, copy_range};
use crate::error::LoadError;
use crate::text::{first_zero, lemma_first_zero, push_byte_as_char};
use crate::objects::common::{ArchetypeImpl, Outcome, outcome_of, keyless};

verus! {

/// A user-interface file: two words, the names of the files it refers to, and the data
/// that follows them (from its "UEF" tag on).
#[derive(Debug)]
pub struct Feu {
    pub unk_01: u32,
    pub unk_02: u32,
    pub feu_refs: Vec<String>,
    pub feu_data: Vec<u8>,
}

pub struct FeuView {
    pub unk_01: u32,
    pub unk_02: u32,
    pub feu_refs: Seq<Seq<char>>,
    pub feu_data: Seq<u8>,
}

impl View for Feu {
    type V = FeuView;

    open spec fn view(&self) -> FeuView {
        FeuView {
            unk_01: self.unk_01,
            unk_02: self.unk_02,
            feu_refs: self.feu_refs@.map_values(|r: String| r@),
            feu_data: self.feu_data@,
        }
    }
}

impl Default for Feu {
    fn default() -> (r: Self)
        ensures
            r@ == (FeuView { unk_01: 0, unk_02: 0, feu_refs: Seq::empty(), feu_data: Seq::empty() }),
    {
        let r = Feu { unk_01: 0, unk_02: 0, feu_refs: Vec::new(), feu_data: Vec::new() };
        assert(r@.feu_refs =~= Seq::<Seq<char>>::empty());
        r
    }
}

/// The bytes at `p` are "UEF" and 0x08.
pub open spec fn is_uef(s: Seq<u8>, p: int) -> bool {
    s[p] == 0x55 && s[p + 1] == 0x45 && s[p + 2] == 0x46 && s[p + 3] == 0x08
}

/// Bytes taken one for one as characters.
pub open spec fn latin1(b: Seq<u8>) -> Seq<char> {
    b.map_values(|x: u8| x as char)
}

/// The references from `p` up to the tag, each a zero-terminated string, and where the
/// tag is; none when the read aborts (a tag check or a string runs past the end).
pub open spec fn feu_run(s: Seq<u8>, p: int) -> Option<(Seq<Seq<char>>, int)>
    decreases s.len() - p,
{
    if p < 0 || p + 4 > s.len() {
        None
    } else if is_uef(s, p) {
        Some((Seq::empty(), p))
    } else {
        let z = first_zero(s, p);
        if z >= s.len() || z < p {
            None
        } else {
            match feu_run(s, z + 1) {
                None => None,
                Some((rs, e)) => Some((seq![latin1(s.subrange(p, z))] + rs, e)),
            }
        }
    }
}

pub open spec fn run_refs(r: Option<(Seq<Seq<char>>, int)>) -> Seq<Seq<char>> {
    match r {
        Some((rs, _)) => rs,
        None => Seq::empty(),
    }
}

pub open spec fn run_end(r: Option<(Seq<Seq<char>>, int)>) -> int {
    match r {
        Some((_, e)) => e,
        None => 0,
    }
}

/// Loading a feu file: None where the load aborts.
pub open spec fn feu_load(old: FeuView, s: Seq<u8>) -> Option<FeuView> {
    if s.len() < 8 {
        None
    } else {
        match feu_run(s, 8) {
            None => None,
            Some((refs, e)) => Some(FeuView {
                unk_01: le_u32(s, 0),
                unk_02: le_u32(s, 4),
                feu_refs: refs,
                feu_data: s.subrange(e, s.len() as int),
            }),
        }
    }
}

fn check_uef(buf: &[u8], pos: usize) -> (r: bool)
    requires
        pos + 4 <= buf@.len(),
    ensures
        r == is_uef(buf@, pos as int),
{
    buf[pos] == 0x55 && buf[pos + 1] == 0x45 && buf[pos + 2] == 0x46 && buf[pos + 3] == 0x08
}

/// Whether loading `buf` as a feu file aborts: the reference
/// strings run past the end before a "UEF" tag.
pub fn feu_load_panics(buf: &[u8]) -> (r: bool)
    ensures
        forall|v: FeuView| r == (feu_load(v, buf@) is None),
{
    let ghost s = buf@;
    if buf.len() < 8 {
        return true;
    }
    let mut p: usize = 8;
    loop
        invariant
            s == buf@,
            s.len() >= 8,
            8 <= p,
            feu_run(s, p as int) is None <==> feu_run(s, 8) is None,
        decreases s.len() - p,
    {
        if p > buf.len() || buf.len() - p < 4 {
            return true;
        }
        if check_uef(buf, p) {
            return false;
        }
        proof {
            lemma_first_zero(s, p as int);
        }
        let mut z: usize = p;
        while z < buf.len() && buf[z] != 0
            invariant
                s == buf@,
                p <= z <= s.len(),
                forall|i: int| p <= i < z ==> s[i] != 0,
                first_zero(s, p as int) == first_zero(s, z as int),
            decreases s.len() - z,
        {
            z = z + 1;
        }
        if z >= buf.len() {
            return true;
        }
        p = z + 1;
    }
}

impl Feu {
    /// Reads the two words, the references up to the "UEF" tag and the data from the tag on.
    /// A buffer that holds no tag where one is looked for, or whose reference runs past
    /// the end, aborts the load; those inputs are left out.
    pub fn load_from_buf(&mut self, buf: &[u8]) -> (r: Result<(), String>)
        requires
            feu_load(old(self)@, buf@) is Some,
        ensures
            r is Ok,
            final(self)@ == feu_load(old(self)@, buf@)->0,
    {
        let ghost s = buf@;
        let mut cursor = ByteReader::new(buf);
        self.unk_01 = crate::bytes::unwrap_read(cursor.read_u32());
        self.unk_02 = crate::bytes::unwrap_read(cursor.read_u32());
        let mut refs: Vec<String> = Vec::new();
        let ghost total = (run_refs(feu_run(s, 8)), run_end(feu_run(s, 8)));
        assert(total.0 =~= refs@.map_values(|r: String| r@) + run_refs(feu_run(s, 8)));
        while !check_uef(buf, cursor.position())
            invariant
                cursor.data() == s,
                s == buf@,
                feu_run(s, cursor.at()) is Some,
                total == (run_refs(feu_run(s, 8)), run_end(feu_run(s, 8))),
                total.0 == refs@.map_values(|r: String| r@) + run_refs(feu_run(s, cursor.at())),
                total.1 == run_end(feu_run(s, cursor.at())),
            decreases s.len() - cursor.at(),
        {
            let ghost p = cursor.at();
            proof {
                lemma_first_zero(s, p);
            }
            let ghost z = first_zero(s, p);
            let mut r = String::new();
            let mut b = crate::bytes::unwrap_read(cursor.read_u8());
            while b != 0
                invariant
                    cursor.data() == s,
                    0 <= p < cursor.at() <= z + 1,
                    z < s.len(),
                    z == first_zero(s, p),
                    forall|i: int| p <= i < z ==> s[i] != 0,
                    s[z] == 0,
                    b == s[cursor.at() - 1],
                    r@ == latin1(s.subrange(p, cursor.at() - 1)),
                decreases z + 1 - cursor.at(),
            {
                let ghost before = r@;
                push_byte_as_char(&mut r, b);
                assert(s.subrange(p, cursor.at()) =~= s.subrange(p, cursor.at() - 1).push(b));
                assert(latin1(s.subrange(p, cursor.at())) =~= before.push(b as char));
                b = crate::bytes::unwrap_read(cursor.read_u8());
            }
            let ghost rv = r@;
            let ghost before = refs@.map_values(|r: String| r@);
            refs.push(r);
            assert(refs@.map_values(|r: String| r@) =~= before.push(rv));
            assert(before + run_refs(feu_run(s, p)) =~= before.push(rv) + run_refs(feu_run(s, cursor.at())));
        }
        self.feu_refs = refs;
        let pos = cursor.position();
        self.feu_data = copy_range(buf, pos, buf.len());
        assert(self@.feu_refs =~= total.0);
        Ok(())
    }

    pub fn unload(&mut self)
        ensures
            final(self)@ == (FeuView { feu_refs: Seq::empty(), feu_data: Seq::empty(), ..old(self)@ }),
    {
        self.feu_data = Vec::new();
        self.feu_refs = Vec::new();
        assert(self@.feu_refs =~= Seq::<Seq<char>>::empty());
    }
}

pub open spec fn feu_outcome(old: FeuView, s: Seq<u8>) -> Outcome<FeuView> {
    match feu_load(old, s) {
        Some(v) => Outcome::Done(v),
        None => Outcome::Panics,
    }
    }

impl ArchetypeImpl for Feu {
    open spec fn load_spec(old: FeuView, s: Seq<u8>) -> Outcome<FeuView> {
        feu_outcome(old, s)
    }

    open spec fn unload_spec(old: FeuView) -> FeuView {
        FeuView { feu_refs: Seq::empty(), feu_data: Seq::empty(), ..old }
    }

    fn load_from_buf(&mut self, buf: &[u8]) -> (r: Result<(), LoadError>) {
        let _ = Feu::load_from_buf(self, buf);
        Ok(())
    }

    fn unload(&mut self) {
        Feu::unload(self)
    }
}

} // verus!

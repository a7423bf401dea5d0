use vstd::prelude::*;
use vstd::string::StringExecFns;
use crate::bytes::{ByteReader, avail, le_u32};
use crate::error::{LoadError, eof_message, err_view, unset_key};
use crate::text::{utf8_result, decode_string};
use crate::objects::common::{
    ArchetypeImpl, Outcome, outcome_of, keyless, Step, list_run, lemma_list_run_stops,
};

verus! {

/// A world: nothing of it is read yet.
pub struct World {}

impl View for World {
    type V = ();

    open spec fn view(&self) -> () {
        ()
    }
}

impl Default for World {
    fn default() -> (r: Self)
        ensures
            r@ == (),
    {
        World {}
    }
}

impl ArchetypeImpl for World {
    open spec fn load_spec(old: (), s: Seq<u8>) -> Outcome<()> {
        Outcome::Done(())
    }

    open spec fn unload_spec(old: ()) -> () {
        ()
    }

    fn load_from_buf(&mut self, buf: &[u8]) -> (r: Result<(), LoadError>) {
        Ok(())
    }

    fn unload(&mut self) {
    }
}

/// A list of render settings entries; every entry seen so far reads "Creation default".
pub struct Rsf {
    pub entries: Vec<RsfEntry>,
}

pub struct RsfEntry {
    pub data: String,
}

impl View for Rsf {
    type V = Seq<Seq<char>>;

    open spec fn view(&self) -> Seq<Seq<char>> {
        self.entries@.map_values(|e: RsfEntry| e.data@)
    }
}

impl Default for Rsf {
    fn default() -> (r: Self)
        ensures
            r@ == Seq::<Seq<char>>::empty(),
    {
        let r = Rsf { entries: Vec::new() };
        assert(r@ =~= Seq::<Seq<char>>::empty());
        r
    }
}

/// The only entry text that is accepted.
pub open spec fn creation_default() -> Seq<char> {
    "Creation default"@
}

pub open spec fn weird_entry_message(t: Seq<char>) -> Seq<char> {
    "weird rsf entry: "@ + t
}

/// One entry: a length, that many bytes of UTF-8, a terminator byte; its text must be
/// the expected one.
pub open spec fn rsf_entry_at(s: Seq<u8>, p: int) -> Result<(Seq<char>, int), Seq<char>> {
    if !avail(s, p, 4) {
        Err(eof_message())
    } else {
        let n = le_u32(s, p) as int;
        if !avail(s, p + 4, n + 1) {
            Err(eof_message())
        } else {
            match utf8_result(s.subrange(p + 4, p + 4 + n)) {
                Err(m) => Err(m),
                Ok(t) => if t != creation_default() {
                    Err(weird_entry_message(t))
                } else {
                    Ok((t, p + 5 + n))
                },
            }
        }
    }
}

pub open spec fn rsf_entry_step() -> Step<Seq<char>> {
    |s: Seq<u8>, p: int| rsf_entry_at(s, p)
}

fn read_rsf_entry(r: &mut ByteReader) -> (res: Result<RsfEntry, LoadError>)
    ensures
        final(r).data() == old(r).data(),
        match rsf_entry_at(old(r).data(), old(r).at()) {
            Ok((t, e)) => res is Ok && res->Ok_0.data@ == t && final(r).at() == e,
            Err(m) => res is Err && res->Err_0@ == err_view(m, unset_key()),
        },
{
    let data_size = r.read_u32()?;
    let data = r.read_exact(data_size as usize)?;
    r.read_u8()?;
    let string = decode_string(data)?;
    let expected = <String as StringExecFns>::from_str("Creation default");
    proof {
        reveal_strlit("Creation default");
    }
    if string != expected {
        let msg = <String as StringExecFns>::from_str("weird rsf entry: ").concat(string.as_str());
        proof {
            reveal_strlit("weird rsf entry: ");
        }
        return Err(LoadError::from_message(msg));
    }
    Ok(RsfEntry { data: string })
}

impl ArchetypeImpl for Rsf {
    /// A count and that many entries, which replace the entries only when all of them
    /// were read.
    open spec fn load_spec(old: Seq<Seq<char>>, s: Seq<u8>) -> Outcome<Seq<Seq<char>>> {
        if s.len() < 4 {
            Outcome::Failed(old, eof_message())
        } else {
            let run = list_run(s, 4, le_u32(s, 0) as nat, rsf_entry_step());
            match run.2 {
                Some(m) => Outcome::Failed(old, m),
                None => Outcome::Done(run.0),
            }
        }
    }

    open spec fn unload_spec(old: Seq<Seq<char>>) -> Seq<Seq<char>> {
        Seq::empty()
    }

    fn load_from_buf(&mut self, buf: &[u8]) -> (r: Result<(), LoadError>) {
        let ghost s = buf@;
        let mut cursor = ByteReader::new(buf);
        let num = cursor.read_u32()?;
        let mut entries: Vec<RsfEntry> = Vec::new();
        let mut k: u32 = 0;
        assert(entries@.map_values(|e: RsfEntry| e.data@) =~= list_run(s, 4, 0, rsf_entry_step()).0);
        while k < num
            invariant
                cursor.data() == s,
                s == buf@,
                s.len() >= 4,
                num == le_u32(s, 0),
                k <= num,
                self@ == old(self)@,
                list_run(s, 4, k as nat, rsf_entry_step()).2 is None,
                list_run(s, 4, k as nat, rsf_entry_step()).1 == cursor.at(),
                entries@.map_values(|e: RsfEntry| e.data@) == list_run(s, 4, k as nat, rsf_entry_step()).0,
            decreases num - k,
        {
            match read_rsf_entry(&mut cursor) {
                Ok(e) => {
                    let ghost before = entries@.map_values(|e: RsfEntry| e.data@);
                    let ghost t = e.data@;
                    entries.push(e);
                    k = k + 1;
                    assert(entries@.map_values(|e: RsfEntry| e.data@) =~= before.push(t));
                },
                Err(e) => {
                    proof {
                        lemma_list_run_stops(s, 4, (k + 1) as nat, num as nat, rsf_entry_step());
                    }
                    return Err(e);
                },
            }
        }
        self.entries = entries;
        Ok(())
    }

    fn unload(&mut self) {
        *self = Rsf::default()
    }
}

} // verus!

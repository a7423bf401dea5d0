use vstd::prelude::*;
use crate::bytes::{ByteReader, le_u32};
use crate::error::{LoadError, eof_message};
use crate::text::{nul_string_at, read_nul_term_string};
use crate::objects::common::{
    ArchetypeImpl, Outcome, outcome_of, keyless, Step, list_run, lemma_list_run_stops,
};

verus! {

pub open spec fn nul_string_step() -> Step<Seq<char>> {
    |s: Seq<u8>, p: int| nul_string_at(s, p)
}

/// An editable parameter list: names.
pub struct EditableParamsList {
    pub names_list: Vec<String>,
}

impl View for EditableParamsList {
    type V = Seq<Seq<char>>;

    open spec fn view(&self) -> Seq<Seq<char>> {
        self.names_list@.map_values(|x: String| x@)
    }
}

impl Default for EditableParamsList {
    fn default() -> (r: Self)
        ensures
            r@ == Seq::<Seq<char>>::empty(),
    {
        let r = EditableParamsList { names_list: Vec::new() };
        assert(r@ =~= Seq::<Seq<char>>::empty());
        r
    }
}

/// A count, then that many zero-terminated names; the names read before a failure stay.
pub open spec fn params_list_load(old: Seq<Seq<char>>, s: Seq<u8>) -> Outcome<Seq<Seq<char>>> {
    if s.len() < 4 {
        Outcome::Failed(old, eof_message())
    } else {
        let run = list_run(s, 4, le_u32(s, 0) as nat, nul_string_step());
        match run.2 {
            Some(m) => Outcome::Failed(run.0, m),
            None => Outcome::Done(run.0),
        }
    }
    }

impl ArchetypeImpl for EditableParamsList {
    open spec fn load_spec(old: Seq<Seq<char>>, s: Seq<u8>) -> Outcome<Seq<Seq<char>>> {
        params_list_load(old, s)
    }

    open spec fn unload_spec(old: Seq<Seq<char>>) -> Seq<Seq<char>> {
        Seq::empty()
    }

    fn load_from_buf(&mut self, buf: &[u8]) -> (r: Result<(), LoadError>) {
        let mut cursor = ByteReader::new(buf);
        let ghost s = buf@;
        let num_entries = cursor.read_u32()?;
        self.names_list = Vec::new();
        let mut i: u32 = 0;
        assert(self@ =~= list_run(s, 4, 0, nul_string_step()).0);
        while i < num_entries
            invariant
                cursor.data() == s,
                s == buf@,
                s.len() >= 4,
                num_entries == le_u32(s, 0),
                i <= num_entries,
                list_run(s, 4, i as nat, nul_string_step()).2 is None,
                list_run(s, 4, i as nat, nul_string_step()).1 == cursor.at(),
                list_run(s, 4, i as nat, nul_string_step()).0 == self@,
            decreases num_entries - i,
        {
            match read_nul_term_string(&mut cursor) {
                Ok(name) => {
                    self.names_list.push(name);
                    i = i + 1;
                    assert(self@ =~= list_run(s, 4, i as nat, nul_string_step()).0);
                },
                Err(e) => {
                    proof {
                        lemma_list_run_stops(s, 4, (i + 1) as nat, num_entries as nat, nul_string_step());
                    }
                    return Err(e);
                },
            }
        }
        Ok(())
    }

    fn unload(&mut self) {
        self.names_list.clear();
        assert(self@ =~= Seq::<Seq<char>>::empty());
    }
}

/// Loading never panics.
pub proof fn lemma_params_list_load_total(old: Seq<Seq<char>>, s: Seq<u8>)
    ensures
        !(params_list_load(old, s) is Panics),
{
}

} // verus!

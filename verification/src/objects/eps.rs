use vstd::prelude::*;
use crate::bytes::{ByteReader, avail, le_u32};
use crate::error::{LoadError, eof_message, err_view, unset_key};
use crate::text::{nul_string_at, read_nul_term_string};
use crate::objects::common::{
    ArchetypeImpl, Outcome, outcome_of, keyless, Step, list_run, lemma_list_run_stops,
};

verus! {

/// An entry of an editable parameter struct: a name, a flag byte and where its data lies.
pub struct StructEntry {
    pub name: String,
    pub unk_01: u8,
    pub data_offset: u32,
}

pub struct StructEntryView {
    pub name: Seq<char>,
    pub unk_01: u8,
    pub data_offset: u32,
}

impl View for StructEntry {
    type V = StructEntryView;

    open spec fn view(&self) -> StructEntryView {
        StructEntryView { name: self.name@, unk_01: self.unk_01, data_offset: self.data_offset }
    }
}

/// An entry at `p`: a zero-terminated name, a byte and a 32-bit offset.
pub open spec fn struct_entry_at(s: Seq<u8>, p: int) -> Result<(StructEntryView, int), Seq<char>> {
    match nul_string_at(s, p) {
        Err(m) => Err(m),
        Ok((name, q)) => if !avail(s, q, 5) {
            Err(eof_message())
        } else {
            Ok((StructEntryView { name, unk_01: s[q], data_offset: le_u32(s, q + 1) }, q + 5))
        },
    }
}

pub open spec fn struct_entry_step() -> Step<StructEntryView> {
    |s: Seq<u8>, p: int| struct_entry_at(s, p)
}

fn read_struct_entry(r: &mut ByteReader) -> (res: Result<StructEntry, LoadError>)
    ensures
        final(r).data() == old(r).data(),
        match struct_entry_at(old(r).data(), old(r).at()) {
            Ok((e, q)) => res is Ok && res->Ok_0@ == e && final(r).at() == q,
            Err(m) => res is Err && res->Err_0@ == err_view(m, unset_key()),
        },
{
    let name = read_nul_term_string(r)?;
    let unk_01 = r.read_u8()?;
    let data_offset = r.read_u32()?;
    Ok(StructEntry { name, unk_01, data_offset })
}

/// An editable parameter struct: two header values, its entry count and its entries.
pub struct EditableParamStruct {
    pub unk_01: u32,
    pub struct_data_len: u32,
    pub num_entries: u32,
    pub entries: Vec<StructEntry>,
}

pub struct EditableParamStructView {
    pub unk_01: u32,
    pub struct_data_len: u32,
    pub num_entries: u32,
    pub entries: Seq<StructEntryView>,
}

impl View for EditableParamStruct {
    type V = EditableParamStructView;

    open spec fn view(&self) -> EditableParamStructView {
        EditableParamStructView {
            unk_01: self.unk_01,
            struct_data_len: self.struct_data_len,
            num_entries: self.num_entries,
            entries: self.entries@.map_values(|e: StructEntry| e@),
        }
    }
}

pub open spec fn empty_param_struct() -> EditableParamStructView {
    EditableParamStructView { unk_01: 0, struct_data_len: 0, num_entries: 0, entries: Seq::empty() }
}

impl Default for EditableParamStruct {
    fn default() -> (r: Self)
        ensures
            r@ == empty_param_struct(),
    {
        let r = EditableParamStruct { unk_01: 0, struct_data_len: 0, num_entries: 0, entries: Vec::new() };
        assert(r@.entries =~= Seq::<StructEntryView>::empty());
        r
    }
}

/// Three 32-bit header values (the third the entry count), then the entries; each field
/// and entry read before a failure stays.
pub open spec fn param_struct_load(old: EditableParamStructView, s: Seq<u8>) -> Outcome<EditableParamStructView> {
    if s.len() < 4 {
        Outcome::Failed(old, eof_message())
    } else if s.len() < 8 {
        Outcome::Failed(EditableParamStructView { unk_01: le_u32(s, 0), ..old }, eof_message())
    } else if s.len() < 12 {
        Outcome::Failed(
            EditableParamStructView { unk_01: le_u32(s, 0), struct_data_len: le_u32(s, 4), ..old },
            eof_message(),
        )
    } else {
        let run = list_run(s, 12, le_u32(s, 8) as nat, struct_entry_step());
        let v = EditableParamStructView {
            unk_01: le_u32(s, 0),
            struct_data_len: le_u32(s, 4),
            num_entries: le_u32(s, 8),
            entries: run.0,
        };
        match run.2 {
            Some(m) => Outcome::Failed(v, m),
            None => Outcome::Done(v),
        }
    }
    }

impl ArchetypeImpl for EditableParamStruct {
    open spec fn load_spec(old: EditableParamStructView, s: Seq<u8>) -> Outcome<EditableParamStructView> {
        param_struct_load(old, s)
    }

    open spec fn unload_spec(old: EditableParamStructView) -> EditableParamStructView {
        empty_param_struct()
    }

    fn load_from_buf(&mut self, buf: &[u8]) -> (r: Result<(), LoadError>) {
        let mut cursor = ByteReader::new(buf);
        let ghost s = buf@;
        self.unk_01 = cursor.read_u32()?;
        self.struct_data_len = cursor.read_u32()?;
        self.num_entries = cursor.read_u32()?;
        self.entries = Vec::new();
        let mut i: u32 = 0;
        assert(self@.entries =~= list_run(s, 12, 0, struct_entry_step()).0);
        while i < self.num_entries
            invariant
                cursor.data() == s,
                s == buf@,
                s.len() >= 12,
                self.unk_01 == le_u32(s, 0),
                self.struct_data_len == le_u32(s, 4),
                self.num_entries == le_u32(s, 8),
                i <= self.num_entries,
                list_run(s, 12, i as nat, struct_entry_step()).2 is None,
                list_run(s, 12, i as nat, struct_entry_step()).1 == cursor.at(),
                list_run(s, 12, i as nat, struct_entry_step()).0 == self@.entries,
            decreases self.num_entries - i,
        {
            match read_struct_entry(&mut cursor) {
                Ok(e) => {
                    self.entries.push(e);
                    i = i + 1;
                    assert(self@.entries =~= list_run(s, 12, i as nat, struct_entry_step()).0);
                },
                Err(e) => {
                    proof {
                        lemma_list_run_stops(s, 12, (i + 1) as nat, self.num_entries as nat, struct_entry_step());
                    }
                    return Err(e);
                },
            }
        }
        Ok(())
    }

    fn unload(&mut self) {
        *self = EditableParamStruct::default();
    }
}

/// Loading never panics.
pub proof fn lemma_param_struct_load_total(old: EditableParamStructView, s: Seq<u8>)
    ensures
        !(param_struct_load(old, s) is Panics),
{
}

} // verus!

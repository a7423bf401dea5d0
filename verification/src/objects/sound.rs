use vstd::prelude::*;
use crate::bytes::{ByteReader, avail, le_u32, partial_len, partial_bytes, read_partial_into, zero_bytes};
use crate::error::{LoadError, eof_message, err_view, unset_key};
use crate::text::{nul_string_at, read_nul_term_string, utf8_result, decode_string, first_zero, lemma_first_zero, hex_byte_text};
use crate::objects::common::{
    ArchetypeImpl, Outcome, outcome_of, keyless, Step, list_run, lemma_list_run_stops,
    error_with_hex_byte,
};

verus! {

/// The kind of a sound bank, with the value that two of the kinds carry.
#[derive(Clone, Copy, PartialEq, Eq, Structural)]
pub enum SnkType {
    Unknown(u8),
    Type0,
    Type1(u32),
    Type2,
    Type3(u32),
    Type8,
}

impl Default for SnkType {
    fn default() -> (r: Self)
        ensures
            r == SnkType::Unknown(0),
    {
        SnkType::Unknown(0)
    }
}

/// An entry of a sound bank.
pub struct SnkEntry {
    pub id: u8,
    pub name: String,
    pub unk00: u8,
    pub unk01: u8,
    pub unk02: u8,
    pub unk03: u8,
    pub unk04: u8,
    pub unk05: u8,
    pub unk06: u8,
    pub unk07: u8,
    pub unk08: u8,
    pub unk09: u8,
}

/// An entry's id, name and its ten trailing bytes.
pub struct SnkEntryView {
    pub id: u8,
    pub name: Seq<char>,
    pub tail: Seq<u8>,
}

impl View for SnkEntry {
    type V = SnkEntryView;

    open spec fn view(&self) -> SnkEntryView {
        SnkEntryView {
            id: self.id,
            name: self.name@,
            tail: seq![
                self.unk00,
                self.unk01,
                self.unk02,
                self.unk03,
                self.unk04,
                self.unk05,
                self.unk06,
                self.unk07,
                self.unk08,
                self.unk09,
            ],
        }
    }
}

/// An entry at `p`: an id byte, a zero-terminated name and ten bytes.
pub open spec fn snk_entry_at(s: Seq<u8>, p: int) -> Result<(SnkEntryView, int), Seq<char>> {
    if !avail(s, p, 1) {
        Err(eof_message())
    } else {
        match nul_string_at(s, p + 1) {
            Err(m) => Err(m),
            Ok((name, q)) => if !avail(s, q, 10) {
                Err(eof_message())
            } else {
                Ok((SnkEntryView { id: s[p], name, tail: s.subrange(q, q + 10) }, q + 10))
            },
        }
    }
}

pub open spec fn snk_entry_step() -> Step<SnkEntryView> {
    |s: Seq<u8>, p: int| snk_entry_at(s, p)
}

fn read_snk_entry(r: &mut ByteReader) -> (res: Result<SnkEntry, LoadError>)
    ensures
        final(r).data() == old(r).data(),
        match snk_entry_at(old(r).data(), old(r).at()) {
            Ok((e, q)) => res is Ok && res->Ok_0@ == e && final(r).at() == q,
            Err(m) => res is Err && res->Err_0@ == err_view(m, unset_key()),
        },
{
    let ghost s = r.data();
    let id = r.read_u8()?;
    let name = read_nul_term_string(r)?;
    let ghost q = r.at();
    let unk00 = r.read_u8()?;
    let unk01 = r.read_u8()?;
    let unk02 = r.read_u8()?;
    let unk03 = r.read_u8()?;
    let unk04 = r.read_u8()?;
    let unk05 = r.read_u8()?;
    let unk06 = r.read_u8()?;
    let unk07 = r.read_u8()?;
    let unk08 = r.read_u8()?;
    let unk09 = r.read_u8()?;
    let e = SnkEntry { id, name, unk00, unk01, unk02, unk03, unk04, unk05, unk06, unk07, unk08, unk09 };
    assert(e@.tail =~= s.subrange(q, q + 10));
    Ok(e)
}

/// A sound bank: its kind, the name of its sound data and its entries.
pub struct SoundBank {
    pub snk_type: SnkType,
    pub bin_name: String,
    pub entries: Vec<SnkEntry>,
}

pub struct SoundBankView {
    pub snk_type: SnkType,
    pub bin_name: Seq<char>,
    pub entries: Seq<SnkEntryView>,
}

impl View for SoundBank {
    type V = SoundBankView;

    open spec fn view(&self) -> SoundBankView {
        SoundBankView {
            snk_type: self.snk_type,
            bin_name: self.bin_name@,
            entries: self.entries@.map_values(|e: SnkEntry| e@),
        }
    }
}

pub open spec fn empty_sound_bank() -> SoundBankView {
    SoundBankView { snk_type: SnkType::Unknown(0), bin_name: Seq::empty(), entries: Seq::empty() }
}

impl Default for SoundBank {
    fn default() -> (r: Self)
        ensures
            r@ == empty_sound_bank(),
    {
        let r = SoundBank { snk_type: SnkType::Unknown(0), bin_name: String::new(), entries: Vec::new() };
        assert(r@.entries =~= Seq::<SnkEntryView>::empty());
        r
    }
}

/// The kind byte at 0 and what follows it: the kind and where the name starts, or the
/// message of the failure.
pub open spec fn snk_type_at(s: Seq<u8>) -> Result<(SnkType, int), Seq<char>> {
    if s.len() < 1 {
        Err(eof_message())
    } else if s[0] == 0 {
        Ok((SnkType::Type0, 1))
    } else if s[0] == 1 {
        if s.len() < 5 {
            Err(eof_message())
        } else {
            Ok((SnkType::Type1(le_u32(s, 1)), 5))
        }
    } else if s[0] == 2 {
        Ok((SnkType::Type2, 1))
    } else if s[0] == 3 {
        if s.len() < 5 {
            Err(eof_message())
        } else {
            Ok((SnkType::Type3(le_u32(s, 1)), 5))
        }
    } else if s[0] == 8 {
        Ok((SnkType::Type8, 1))
    } else {
        Err("unknown snk type: "@ + hex_byte_text(s[0]))
    }
}

/// The 32 name bytes at `q` (what there is of them, then zeros), up to their first zero.
pub open spec fn bin_name_bytes(s: Seq<u8>, q: int) -> Seq<u8> {
    let a = partial_bytes(s, q, 32) + Seq::new((32 - partial_len(s, q, 32)) as nat, |i: int| 0u8);
    a.subrange(0, first_zero(a, 0))
}

/// The kind, a 32-byte name field, an entry count byte and the entries; the kind stays
/// once read, the name once decoded, and the entries read before a failure stay.
pub open spec fn sound_bank_load(old: SoundBankView, s: Seq<u8>) -> Outcome<SoundBankView> {
    match snk_type_at(s) {
        Err(m) => Outcome::Failed(old, m),
        Ok((t, q)) => {
            let q2 = q + partial_len(s, q, 32);
            match utf8_result(bin_name_bytes(s, q)) {
                Err(m) => Outcome::Failed(SoundBankView { snk_type: t, ..old }, m),
                Ok(name) => if !avail(s, q2, 1) {
                    Outcome::Failed(SoundBankView { snk_type: t, bin_name: name, ..old }, eof_message())
                } else {
                    let run = list_run(s, q2 + 1, s[q2] as nat, snk_entry_step());
                    let v = SoundBankView { snk_type: t, bin_name: name, entries: run.0 };
                    match run.2 {
                        Some(m) => Outcome::Failed(v, m),
                        None => Outcome::Done(v),
                    }
                },
            }
        },
    }
    }

impl ArchetypeImpl for SoundBank {
    open spec fn load_spec(old: SoundBankView, s: Seq<u8>) -> Outcome<SoundBankView> {
        sound_bank_load(old, s)
    }

    open spec fn unload_spec(old: SoundBankView) -> SoundBankView {
        empty_sound_bank()
    }

    fn load_from_buf(&mut self, buf: &[u8]) -> (r: Result<(), LoadError>) {
        let ghost s = buf@;
        let mut cursor = ByteReader::new(buf);
        let t = cursor.read_u8()?;
        self.snk_type = match t {
            0 => SnkType::Type0,
            1 => SnkType::Type1(cursor.read_u32()?),
            2 => SnkType::Type2,
            3 => SnkType::Type3(cursor.read_u32()?),
            8 => SnkType::Type8,
            v => {
                return Err(error_with_hex_byte("unknown snk type: ", v));
            },
        };
        let ghost q = cursor.at();
        let mut name_buf = zero_bytes::<32>();
        read_partial_into(&mut cursor, &mut name_buf);
        proof {
            lemma_first_zero(name_buf@, 0);
            assert(name_buf@ =~= partial_bytes(s, q, 32) + Seq::new((32 - partial_len(s, q, 32)) as nat, |i: int| 0u8));
        }
        let mut k: usize = 0;
        while k < 32 && name_buf[k] != 0
            invariant
                0 <= k <= first_zero(name_buf@, 0),
                first_zero(name_buf@, 0) <= 32,
                name_buf@.len() == 32,
                forall|j: int| 0 <= j < first_zero(name_buf@, 0) ==> name_buf@[j] != 0,
                first_zero(name_buf@, 0) < 32 ==> name_buf@[first_zero(name_buf@, 0)] == 0,
            decreases 32 - k,
        {
            k = k + 1;
        }
        let v = crate::bytes::copy_range(&name_buf, 0, k);
        assert(v@ =~= bin_name_bytes(s, q));
        self.bin_name = decode_string(v)?;
        let ghost q2 = cursor.at();
        let num_snk = cursor.read_u8()?;
        let ghost p = cursor.at();
        let ghost t0 = self.snk_type;
        let ghost n0 = self.bin_name@;
        self.entries = Vec::new();
        let mut i: u8 = 0;
        assert(self@.entries =~= list_run(s, p, 0, snk_entry_step()).0);
        while i < num_snk
            invariant
                cursor.data() == s,
                s == buf@,
                i <= num_snk,
                self.snk_type == t0,
                self.bin_name@ == n0,
                snk_type_at(s) == Ok::<(SnkType, int), Seq<char>>((t0, q)),
                q2 == q + partial_len(s, q, 32),
                utf8_result(bin_name_bytes(s, q)) == Ok::<Seq<char>, Seq<char>>(n0),
                avail(s, q2, 1),
                p == q2 + 1,
                num_snk == s[q2],
                list_run(s, p, i as nat, snk_entry_step()).2 is None,
                list_run(s, p, i as nat, snk_entry_step()).1 == cursor.at(),
                list_run(s, p, i as nat, snk_entry_step()).0 == self@.entries,
            decreases num_snk - i,
        {
            match read_snk_entry(&mut cursor) {
                Ok(e) => {
                    self.entries.push(e);
                    i = i + 1;
                    assert(self@.entries =~= list_run(s, p, i as nat, snk_entry_step()).0);
                },
                Err(e) => {
                    proof {
                        lemma_list_run_stops(s, p, (i + 1) as nat, num_snk as nat, snk_entry_step());
                    }
                    return Err(e);
                },
            }
        }
        Ok(())
    }

    fn unload(&mut self) {
        *self = SoundBank::default();
    }
}

/// Loading never panics.
pub proof fn lemma_sound_bank_load_total(old: SoundBankView, s: Seq<u8>)
    ensures
        !(sound_bank_load(old, s) is Panics),
{
}

} // verus!

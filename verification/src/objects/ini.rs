use vstd::prelude::*;
use crate::bytes::{ByteReader, avail, le_u32};
use crate::error::{LoadError, eof_message, err_view, unset_key};
use crate::text::{first_zero, lemma_first_zero, utf8_result, decode_string};
use crate::objects::common::{
    ArchetypeImpl, Outcome, outcome_of, keyless, Step, list_run, lemma_list_run_stops,
};

verus! {

/// An entry of an ini object: a named integer, a named asset key, or one of unknown kind.
pub enum IniEntry {
    Invalid,
    Int(String, u32),
    AssetKey(String, u32),
}

pub enum IniEntryView {
    Invalid,
    Int(Seq<char>, u32),
    AssetKey(Seq<char>, u32),
}

impl View for IniEntry {
    type V = IniEntryView;

    open spec fn view(&self) -> IniEntryView {
        match self {
            IniEntry::Invalid => IniEntryView::Invalid,
            IniEntry::Int(k, v) => IniEntryView::Int(k@, *v),
            IniEntry::AssetKey(k, v) => IniEntryView::AssetKey(k@, *v),
        }
    }
}

/// An entry at `p`: a zero-terminated name, a kind byte and a 32-bit value; the name is
/// decoded after the kind and the value are read.
pub open spec fn ini_entry_at(s: Seq<u8>, p: int) -> Result<(IniEntryView, int), Seq<char>> {
    let z = first_zero(s, p);
    if p < 0 || z >= s.len() || !avail(s, z + 1, 5) {
        Err(eof_message())
    } else {
        match utf8_result(s.subrange(p, z)) {
            Err(m) => Err(m),
            Ok(t) => {
                let kind = s[z + 1];
                let v = le_u32(s, z + 2);
                let e = if kind == 0 {
                    IniEntryView::Int(t, v)
                } else if kind == 1 {
                    IniEntryView::AssetKey(t, v)
                } else {
                    IniEntryView::Invalid
                };
                Ok((e, z + 6))
            },
        }
    }
}

pub open spec fn ini_step() -> Step<IniEntryView> {
    |s: Seq<u8>, p: int| ini_entry_at(s, p)
}

/// The entries of an ini object: a count, then the entries.
pub open spec fn ini_entries(s: Seq<u8>) -> Result<Seq<IniEntryView>, Seq<char>> {
    if s.len() < 4 {
        Err(eof_message())
    } else {
        let run = list_run(s, 4, le_u32(s, 0) as nat, ini_step());
        match run.2 {
            Some(m) => Err(m),
            None => Ok(run.0),
        }
    }
}

/// Reads the bytes up to a zero byte, consuming the zero.
fn read_until_zero(r: &mut ByteReader) -> (res: Result<Vec<u8>, LoadError>)
    ensures
        final(r).data() == old(r).data(),
        ({
            let z = first_zero(old(r).data(), old(r).at());
            if z >= old(r).data().len() || old(r).at() > old(r).data().len() {
                res is Err && res->Err_0@ == err_view(eof_message(), unset_key())
            } else {
                res is Ok && res->Ok_0@ == old(r).data().subrange(old(r).at(), z) && final(r).at() == z + 1
            }
        }),
{
    let ghost s = r.data();
    let ghost p = r.at();
    proof {
        lemma_first_zero(s, p);
    }
    if r.remaining() == 0 {
        return Err(LoadError::eof());
    }
    let mut v: Vec<u8> = Vec::new();
    loop
        invariant
            r.data() == s,
            s == old(r).data(),
            p == old(r).at(),
            0 <= p < s.len(),
            p <= r.at() <= first_zero(s, p),
            first_zero(s, p) <= s.len(),
            first_zero(s, p) < s.len() ==> s[first_zero(s, p)] == 0,
            forall|i: int| p <= i < first_zero(s, p) ==> s[i] != 0,
            v@ == s.subrange(p, r.at()),
        decreases s.len() - r.at(),
    {
        let b = match r.read_u8() {
            Ok(b) => b,
            Err(e) => {
                return Err(e);
            },
        };
        if b == 0 {
            return Ok(v);
        }
        v.push(b);
    }
}

fn read_ini_entry(r: &mut ByteReader) -> (res: Result<IniEntry, LoadError>)
    ensures
        final(r).data() == old(r).data(),
        match ini_entry_at(old(r).data(), old(r).at()) {
            Ok((e, q)) => res is Ok && res->Ok_0@ == e && final(r).at() == q,
            Err(m) => res is Err && res->Err_0@ == err_view(m, unset_key()),
        },
{
    let v = read_until_zero(r)?;
    let entry_type = r.read_u8()?;
    let value = r.read_u32()?;
    let key = decode_string(v)?;
    let e = if entry_type == 0 {
        IniEntry::Int(key, value)
    } else if entry_type == 1 {
        IniEntry::AssetKey(key, value)
    } else {
        IniEntry::Invalid
    };
    Ok(e)
}

/// An ini object: its entries.
pub struct YetiIni {
    pub entries: Vec<IniEntry>,
}

impl View for YetiIni {
    type V = Seq<IniEntryView>;

    open spec fn view(&self) -> Seq<IniEntryView> {
        self.entries@.map_values(|e: IniEntry| e@)
    }
}

impl Default for YetiIni {
    fn default() -> (r: Self)
        ensures
            r@ == Seq::<IniEntryView>::empty(),
    {
        let r = YetiIni { entries: Vec::new() };
        assert(r@ =~= Seq::<IniEntryView>::empty());
        r
    }
}

impl YetiIni {
    /// Reads the entries; nothing of the object changes.
    pub fn load_from_reader(&self, reader: &mut ByteReader) -> (r: Result<Vec<IniEntry>, LoadError>)
        requires
            old(reader).at() == 0,
        ensures
            match ini_entries(old(reader).data()) {
                Ok(es) => r is Ok && r->Ok_0@.map_values(|e: IniEntry| e@) == es,
                Err(m) => r is Err && r->Err_0@ == err_view(m, unset_key()),
            },
    {
        let ghost s = reader.data();
        let num_entries = reader.read_u32()?;
        let mut entries: Vec<IniEntry> = Vec::new();
        let mut i: u32 = 0;
        while i < num_entries
            invariant
                reader.data() == s,
                s == old(reader).data(),
                s.len() >= 4,
                num_entries == le_u32(s, 0),
                i <= num_entries,
                list_run(s, 4, i as nat, ini_step()).2 is None,
                list_run(s, 4, i as nat, ini_step()).1 == reader.at(),
                list_run(s, 4, i as nat, ini_step()).0 == entries@.map_values(|e: IniEntry| e@),
            decreases num_entries - i,
        {
            match read_ini_entry(reader) {
                Ok(e) => {
                    entries.push(e);
                    i = i + 1;
                    assert(entries@.map_values(|e: IniEntry| e@) =~= list_run(s, 4, i as nat, ini_step()).0);
                },
                Err(e) => {
                    proof {
                        lemma_list_run_stops(s, 4, (i + 1) as nat, num_entries as nat, ini_step());
                    }
                    return Err(e);
                },
            }
        }
        Ok(entries)
    }
}

pub open spec fn ini_load(old: Seq<IniEntryView>, s: Seq<u8>) -> Outcome<Seq<IniEntryView>> {
    match ini_entries(s) {
        Ok(es) => Outcome::Done(es),
        Err(m) => Outcome::Failed(old, m),
    }
    }

impl ArchetypeImpl for YetiIni {
    open spec fn load_spec(old: Seq<IniEntryView>, s: Seq<u8>) -> Outcome<Seq<IniEntryView>> {
        ini_load(old, s)
    }

    open spec fn unload_spec(old: Seq<IniEntryView>) -> Seq<IniEntryView> {
        Seq::empty()
    }

    fn load_from_buf(&mut self, buf: &[u8]) -> (r: Result<(), LoadError>) {
        let mut cursor = ByteReader::new(buf);
        self.entries = self.load_from_reader(&mut cursor)?;
        Ok(())
    }

    fn unload(&mut self) {
        self.entries.clear();
        assert(self@ =~= Seq::<IniEntryView>::empty());
    }
}

/// Loading never panics.
pub proof fn lemma_ini_load_total(old: Seq<IniEntryView>, s: Seq<u8>)
    ensures
        !(ini_load(old, s) is Panics),
{
}

} // verus!

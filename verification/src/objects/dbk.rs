use vstd::prelude::*;
use crate::bytes::{ByteReader, copy_range};
use crate::error::{LoadError, eof_message};
use crate::objects::common::{ArchetypeImpl, Outcome, outcome_of, keyless};

verus! {

/// A dynamic bank: its id, its entry count and the bytes of its entries.
pub struct DynamicBank {
    pub bank_id: u8,
    pub num_bank_entries: u8,
    pub the_rest_of_the_data: Vec<u8>,
}

pub struct DynamicBankView {
    pub bank_id: u8,
    pub num_bank_entries: u8,
    pub the_rest_of_the_data: Seq<u8>,
}

impl View for DynamicBank {
    type V = DynamicBankView;

    open spec fn view(&self) -> DynamicBankView {
        DynamicBankView {
            bank_id: self.bank_id,
            num_bank_entries: self.num_bank_entries,
            the_rest_of_the_data: self.the_rest_of_the_data@,
        }
    }
}

pub open spec fn empty_bank() -> DynamicBankView {
    DynamicBankView { bank_id: 0, num_bank_entries: 0, the_rest_of_the_data: Seq::empty() }
}

impl Default for DynamicBank {
    fn default() -> (r: Self)
        ensures
            r@ == empty_bank(),
    {
        DynamicBank { bank_id: 0, num_bank_entries: 0, the_rest_of_the_data: Vec::new() }
    }
}

/// The id and the count are the first two bytes; a bank with entries keeps the bytes from
/// the fourth on (a bank with no entries is malformed).
pub open spec fn bank_load(old: DynamicBankView, s: Seq<u8>) -> Outcome<DynamicBankView> {
    if s.len() < 1 {
        Outcome::Failed(old, eof_message())
    } else if s.len() < 2 {
        Outcome::Failed(DynamicBankView { bank_id: s[0], ..old }, eof_message())
    } else if s[1] > 0 {
        if s.len() < 3 {
            Outcome::Panics
        } else {
            Outcome::Done(
                DynamicBankView {
                    bank_id: s[0],
                    num_bank_entries: s[1],
                    the_rest_of_the_data: s.subrange(3, s.len() as int),
                },
            )
        }
    } else {
        Outcome::Done(DynamicBankView { bank_id: s[0], num_bank_entries: s[1], ..old })
    }
    }

impl ArchetypeImpl for DynamicBank {
    open spec fn load_spec(old: DynamicBankView, s: Seq<u8>) -> Outcome<DynamicBankView> {
        bank_load(old, s)
    }

    open spec fn unload_spec(old: DynamicBankView) -> DynamicBankView {
        empty_bank()
    }

    fn load_from_buf(&mut self, buf: &[u8]) -> (r: Result<(), LoadError>) {
        let mut cursor = ByteReader::new(buf);
        self.bank_id = cursor.read_u8()?;
        self.num_bank_entries = cursor.read_u8()?;
        if self.num_bank_entries > 0 {
            self.the_rest_of_the_data = copy_range(buf, 3, buf.len());
        }
        Ok(())
    }

    fn unload(&mut self) {
        *self = DynamicBank::default();
    }
}


} // verus!

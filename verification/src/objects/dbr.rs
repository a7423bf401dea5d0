use vstd::prelude::*;
use crate::error::LoadError;
use crate::objects::common::{ArchetypeImpl, Outcome, outcome_of, keyless};

verus! {

/// A dynamic bank reference list; nothing of it is read.
pub struct Dbr {}

impl View for Dbr {
    type V = ();

    open spec fn view(&self) -> () {
        ()
    }
}

impl Default for Dbr {
    fn default() -> (r: Self) {
        Dbr {}
    }
}

pub open spec fn dbr_load(old: (), s: Seq<u8>) -> Outcome<()> {
    Outcome::Done(())
    }

impl ArchetypeImpl for Dbr {
    open spec fn load_spec(old: (), s: Seq<u8>) -> Outcome<()> {
        dbr_load(old, s)
    }

    open spec fn unload_spec(old: ()) -> () {
        ()
    }

    fn load_from_buf(&mut self, _buf: &[u8]) -> (r: Result<(), LoadError>) {
        Ok(())
    }

    fn unload(&mut self) {
    }
}

/// Loading never panics.
pub proof fn lemma_dbr_load_total(old: (), s: Seq<u8>)
    ensures
        !(dbr_load(old, s) is Panics),
{
}

} // verus!

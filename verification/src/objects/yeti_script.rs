use vstd::prelude::*;
use crate::bytes::copy_range;
use crate::error::LoadError;
use crate::objects::common::{ArchetypeImpl, Outcome, outcome_of, keyless};

verus! {

/// A script object: its bytes, kept as they are.
pub struct YetiScript {
    pub buffer: Vec<u8>,
}

impl View for YetiScript {
    type V = Seq<u8>;

    open spec fn view(&self) -> Seq<u8> {
        self.buffer@
    }
}

impl Default for YetiScript {
    fn default() -> (r: Self)
        ensures
            r@ == Seq::<u8>::empty(),
    {
        YetiScript { buffer: Vec::new() }
    }
}

pub open spec fn script_load(old: Seq<u8>, s: Seq<u8>) -> Outcome<Seq<u8>> {
    Outcome::Done(s)
    }

impl ArchetypeImpl for YetiScript {
    open spec fn load_spec(old: Seq<u8>, s: Seq<u8>) -> Outcome<Seq<u8>> {
        script_load(old, s)
    }

    open spec fn unload_spec(old: Seq<u8>) -> Seq<u8> {
        Seq::empty()
    }

    fn load_from_buf(&mut self, buf: &[u8]) -> (r: Result<(), LoadError>) {
        self.buffer = copy_range(buf, 0, buf.len());
        assert(buf@.subrange(0, buf@.len() as int) =~= buf@);
        Ok(())
    }

    fn unload(&mut self) {
        self.buffer.clear();
    }
}

/// Loading never panics.
pub proof fn lemma_script_load_total(old: Seq<u8>, s: Seq<u8>)
    ensures
        !(script_load(old, s) is Panics),
{
}

} // verus!

use vstd::prelude::*;
use crate::bytes::copy_range;
use crate::error::LoadError;
use crate::objects::common::{ArchetypeImpl, Outcome, outcome_of, keyless};

verus! {

/// A font object: the font file's bytes (the application turns them into a font of its
/// user interface, at index 0 with the default tweak).
pub struct Otf {
    pub font: Option<Vec<u8>>,
}

impl View for Otf {
    type V = Option<Seq<u8>>;

    open spec fn view(&self) -> Option<Seq<u8>> {
        match self.font {
            Some(v) => Some(v@),
            None => None,
        }
    }
}

impl Default for Otf {
    fn default() -> (r: Self)
        ensures
            r@ == None::<Seq<u8>>,
    {
        Otf { font: None }
    }
}

pub open spec fn otf_load(old: Option<Seq<u8>>, s: Seq<u8>) -> Outcome<Option<Seq<u8>>> {
    Outcome::Done(Some(s))
    }

impl ArchetypeImpl for Otf {
    open spec fn load_spec(old: Option<Seq<u8>>, s: Seq<u8>) -> Outcome<Option<Seq<u8>>> {
        otf_load(old, s)
    }

    open spec fn unload_spec(old: Option<Seq<u8>>) -> Option<Seq<u8>> {
        None
    }

    fn load_from_buf(&mut self, buf: &[u8]) -> (r: Result<(), LoadError>) {
        let v = copy_range(buf, 0, buf.len());
        assert(buf@.subrange(0, buf@.len() as int) =~= buf@);
        self.font = Some(v);
        Ok(())
    }

    fn unload(&mut self) {
        self.font = None
    }
}

/// Loading never panics.
pub proof fn lemma_otf_load_total(old: Option<Seq<u8>>, s: Seq<u8>)
    ensures
        !(otf_load(old, s) is Panics),
{
}

} // verus!

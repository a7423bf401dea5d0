pub mod common;
pub mod yeti_script;
pub mod dbr;
pub mod otf;
pub mod dbk;
pub mod ini;
pub mod epl;
pub mod eps;
pub mod texture;
pub mod sound;
pub mod dtb;
pub mod curve;
pub mod zone;
pub mod way;
pub mod collision;
pub mod vxc;
pub mod vxt;
pub mod world;
pub mod anim_other;
pub mod meshes;
pub mod skeleton;
pub mod gameobject;
pub mod ai_const;
pub mod xml_consts;
pub mod shader;
pub mod feu;
pub mod archetype;

use vstd::prelude::*;
use crate::error::{LoadError, err_view, unset_key};
use crate::metadata::{YKey, FileEntry, c_string_ok, c_string_text};
use crate::io::{refs_of, refs_fit, parse_and_remove_refs};
use crate::bytes::{le_u32, ByteReader, unwrap_read};
use crate::objects::common::Outcome;
use crate::objects::archetype::{ObjectArchetype, ArchetypeView, archetype_load, archetype_unload, archetype_of_type};
use crate::objects::ai_const::{AIConstList, insert_all, xml_list_message};
use crate::objects::xml_consts::{XmlConstEvent, XmlConstEventView, xml_run, xml_run_ok};
use crate::error::YetiIOError;
use vstd::string::StringExecFns;

verus! {

/// An object of the bigfile: its key and name, how many loads hold it, the keys it refers
/// to, its loaded form and the error of its last failed load.
pub struct YetiObject {
    load_refs: u32,
    key: u32,
    name: String,
    pub references: Vec<u32>,
    pub archetype: ObjectArchetype,
    pub load_error: Option<LoadError>,
}

pub struct YetiObjectView {
    pub load_refs: u32,
    pub key: u32,
    pub name: Seq<char>,
    pub references: Seq<u32>,
    pub archetype: ArchetypeView,
    pub load_error: Option<(Seq<char>, u32)>,
}

pub open spec fn error_view(e: Option<LoadError>) -> Option<(Seq<char>, u32)> {
    match e {
        Some(x) => Some(x@),
        None => None,
    }
}

impl View for YetiObject {
    type V = YetiObjectView;

    closed spec fn view(&self) -> YetiObjectView {
        YetiObjectView {
            load_refs: self.load_refs,
            key: self.key,
            name: self.name@,
            references: self.references@,
            archetype: self.archetype@,
            load_error: error_view(self.load_error),
        }
    }
}

impl Default for YetiObject {
    fn default() -> (r: Self)
        ensures
            r@ == (YetiObjectView {
                load_refs: 0,
                key: 0xFFFF_FFFF,
                name: Seq::empty(),
                references: Seq::empty(),
                archetype: ArchetypeView::NoImpl,
                load_error: None,
            }),
    {
        YetiObject {
            load_refs: 0,
            key: 0xFFFF_FFFF,
            name: String::new(),
            references: Vec::new(),
            archetype: ObjectArchetype::NoImpl,
            load_error: None,
        }
    }
}

/// The keys of an object's references, read from the front of its bytes.
pub open spec fn ref_keys(s: Seq<u8>) -> Seq<u32> {
    refs_of(s).map_values(|k: YKey| k.0)
}

/// An object's bytes after its references.
pub open spec fn after_refs(s: Seq<u8>) -> Seq<u8> {
    s.subrange(4 + 4 * (le_u32(s, 0) as int), s.len() as int)
}

/// Loading an object out of its bytes: the references, then the archetype's own loading.
/// On success the object holds one more load and no error; on failure the archetype is
/// unloaded and the error, with the object's key, is kept and returned.
pub open spec fn yeti_load(v: YetiObjectView, s: Seq<u8>) -> (YetiObjectView, Result<(), (Seq<char>, u32)>) {
    match archetype_load(v.archetype, after_refs(s)) {
        Outcome::Failed(a, m) => (YetiObjectView {
            references: ref_keys(s),
            archetype: archetype_unload(a),
            load_error: Some((m, v.key)),
            ..v
        }, Err((m, v.key))),
        Outcome::Done(a) => (YetiObjectView {
            load_refs: (v.load_refs + 1) as u32,
            references: ref_keys(s),
            archetype: a,
            load_error: None,
            ..v
        }, Ok(())),
        Outcome::Panics => (v, Ok(())),
    }
}

/// A load aborts on bytes too short for their references, on those that its archetype
/// aborts on, and when the load count would overflow.
pub open spec fn yeti_load_ok(v: YetiObjectView, s: Seq<u8>) -> bool {
    &&& refs_fit(s)
    &&& !(archetype_load(v.archetype, after_refs(s)) is Panics)
    &&& archetype_load(v.archetype, after_refs(s)) is Done ==> v.load_refs < u32::MAX
}

/// Dropping one load: when none is left the archetype is unloaded and the references go.
pub open spec fn yeti_unload(v: YetiObjectView) -> YetiObjectView {
    if v.load_refs == 0 {
        v
    } else if v.load_refs == 1 {
        YetiObjectView {
            load_refs: 0,
            archetype: archetype_unload(v.archetype),
            references: Seq::empty(),
            ..v
        }
    } else {
        YetiObjectView { load_refs: (v.load_refs - 1) as u32, ..v }
    }
}

pub open spec fn result_view(r: Result<(), LoadError>) -> Result<(), (Seq<char>, u32)> {
    match r {
        Ok(()) => Ok(()),
        Err(e) => Err(e@),
    }
}

/// An XML constant list whose load was left to be finished from its XML events: its load
/// failed with the message that says so, and one more load can hold it.
pub open spec fn xml_list_pending(o: YetiObjectView) -> bool {
    &&& o.load_error == Some((xml_list_message(), o.key))
    &&& o.load_refs < u32::MAX
    &&& o.archetype is ConstList
}

/// Finishing the load of a pending XML constant list from the events read out of its XML
/// (`err`: the reader's error after them, if any). Without an error the constants read from
/// the events are filed into its tree, it holds one more load and has no error; with one,
/// the load fails with that error, which carries the object's key.
pub open spec fn xml_list_finish(o: YetiObjectView, evs: Seq<XmlConstEventView>, err: Option<Seq<char>>) -> (YetiObjectView, Result<(), (Seq<char>, u32)>) {
    match err {
        Some(m) => (YetiObjectView { load_error: Some((m, o.key)), ..o }, Err((m, o.key))),
        None => (YetiObjectView {
            load_refs: (o.load_refs + 1) as u32,
            archetype: ArchetypeView::ConstList(insert_all(o.archetype->ConstList_0, xml_run(evs).consts)),
            load_error: None,
            ..o
        }, Ok(())),
    }
}

/// The message of an error, if there is one.
pub open spec fn error_message(e: Option<YetiIOError>) -> Option<Seq<char>> {
    match e {
        Some(x) => Some(x@.0),
        None => None,
    }
}

impl YetiObject {
    /// Whether the object is an XML constant list whose load waits to be finished.
    pub fn is_xml_list_pending(&self) -> (r: bool)
        ensures
            r == xml_list_pending(self@),
    {
        proof {
            reveal_strlit("xml const lists are loaded separately");
        }
        let is_list = match &self.archetype {
            ObjectArchetype::ConstList(_) => true,
            _ => false,
        };
        match &self.load_error {
            Some(e) => {
                let m = <String as StringExecFns>::from_str(e.message());
                let x = <String as StringExecFns>::from_str("xml const lists are loaded separately");
                let same = m == x;
                same && e.key().0 == self.key && self.load_refs < u32::MAX && is_list
            },
            None => false,
        }
    }

    /// Finishes the load of a pending XML constant list from the events read out of its
    /// XML and the reader's error after them, if any (see `xml_list_finish`).
    pub fn finish_xml_const_list(&mut self, events: &Vec<XmlConstEvent>, error: Option<YetiIOError>) -> (r: Result<(), LoadError>)
        requires
            xml_list_pending(old(self)@),
            xml_run_ok(events@.map_values(|e: XmlConstEvent| e@)),
        ensures
            (final(self)@, result_view(r)) == xml_list_finish(old(self)@, events@.map_values(|e: XmlConstEvent| e@), error_message(error)),
    {
        match error {
            Some(e) => {
                let mut le = e.into_load_error();
                le.set_key(YKey(self.key));
                let copy = le.duplicate();
                self.load_error = Some(le);
                Err(copy)
            },
            None => {
                let consts = AIConstList::load_xml_consts(events);
                match &mut self.archetype {
                    ObjectArchetype::ConstList(l) => l.insert_consts(&consts),
                    _ => {},
                }
                self.load_refs = self.load_refs + 1;
                self.load_error = None;
                Ok(())
            },
        }
    }

    /// A fresh object for a file entry: its key, its name and the empty archetype of its type.
    pub fn from_file_entry(entry: &FileEntry) -> (r: Self)
        requires
            c_string_ok(entry.name@),
        ensures
            r@ == (YetiObjectView {
                load_refs: 0,
                key: entry.key.0,
                name: c_string_text(entry.name@),
                references: Seq::empty(),
                archetype: archetype_of_type(entry.object_type),
                load_error: None,
            }),
    {
        YetiObject {
            load_refs: 0,
            key: entry.key.0,
            name: entry.get_name(),
            references: Vec::new(),
            archetype: Self::type_to_archetype(&entry.object_type),
            load_error: None,
        }
    }

    pub fn is_loaded(&self) -> (r: bool)
        ensures
            r == (self@.load_refs > 0),
    {
        self.load_refs > 0
    }

    /// The keys the object refers to.
    pub fn get_references(&self) -> (r: &Vec<u32>)
        ensures
            r@ == self@.references,
    {
        &self.references
    }

    /// The object's loaded form.
    pub fn get_archetype(&self) -> (r: &ObjectArchetype)
        ensures
            r@ == self@.archetype,
    {
        &self.archetype
    }

    /// How many loads hold the object.
    pub fn load_count(&self) -> (r: u32)
        ensures
            r == self@.load_refs,
    {
        self.load_refs
    }

    pub fn get_key(&self) -> (r: u32)
        ensures
            r == self@.key,
    {
        self.key
    }

    pub fn get_name(&self) -> (r: &str)
        ensures
            r@ == self@.name,
    {
        self.name.as_str()
    }

    /// One more load holds the object.
    pub fn add_ref(&mut self)
        requires
            old(self)@.load_refs < u32::MAX,
        ensures
            final(self)@ == (YetiObjectView { load_refs: (old(self)@.load_refs + 1) as u32, ..old(self)@ }),
    {
        self.load_refs = self.load_refs + 1;
    }

    pub fn load_from_buf(&mut self, buf: &[u8]) -> (r: Result<(), LoadError>)
        requires
            yeti_load_ok(old(self)@, buf@),
        ensures
            final(self)@ == yeti_load(old(self)@, buf@).0,
            result_view(r) == yeti_load(old(self)@, buf@).1,
    {
        let (refs, rest) = parse_and_remove_refs(buf);
        let mut keys: Vec<u32> = Vec::new();
        let mut i: usize = 0;
        while i < refs.len()
            invariant
                i <= refs@.len(),
                keys@ == refs@.subrange(0, i as int).map_values(|k: YKey| k.0),
            decreases refs@.len() - i,
        {
            let ghost before = keys@;
            keys.push(refs[i].0);
            assert(refs@.subrange(0, i + 1).map_values(|k: YKey| k.0) =~= before.push(refs@[i as int].0));
            i = i + 1;
        }
        assert(refs@.subrange(0, refs@.len() as int) =~= refs@);
        self.references = keys;
        match self.archetype.load_from_buf(rest) {
            Err(error) => {
                let mut error = error;
                self.archetype.unload();
                error.set_key(YKey(self.key));
                let copy = error.duplicate();
                self.load_error = Some(error);
                Err(copy)
            },
            Ok(()) => {
                self.load_refs = self.load_refs + 1;
                self.load_error = None;
                Ok(())
            },
        }
    }

    /// Whether `load_from_buf` must not be called with `buf`: the bytes are too short for
    /// their references, the archetype panics on the rest (see
    /// `ObjectArchetype::load_panics`), or the load count is at its largest.
    pub fn load_refused(&self, buf: &[u8]) -> (r: bool)
        ensures
            !r ==> yeti_load_ok(self@, buf@),
            r ==> !yeti_load_ok(self@, buf@) || self@.load_refs == u32::MAX,
    {
        if buf.len() < 4 {
            return true;
        }
        let mut c = ByteReader::new(buf);
        let n = unwrap_read(c.read_u32()) as u64;
        if (buf.len() as u64) < 4 + 4 * n {
            return true;
        }
        let (_, rest) = parse_and_remove_refs(buf);
        if self.archetype.load_panics(rest) {
            return true;
        }
        self.load_refs == u32::MAX
    }


    /// Drops one load (nothing when none holds the object); the last one unloads it.
    pub fn unload(&mut self)
        ensures
            final(self)@ == yeti_unload(old(self)@),
    {
        if !self.is_loaded() {
            return;
        }
        self.load_refs = self.load_refs - 1;
        if self.load_refs == 0 {
            self.archetype.unload();
            self.references.clear();
        }
    }
}

} // verus!

use vstd::prelude::*;
use vstd::string::StringExecFns;
use std::collections::{HashMap, HashSet};
use queues::{IsQueue, Queue};
use crate::metadata::YKey;
use crate::object_type::{ObjectType, object_type_code};
use crate::text::{format_decimal, decimal_text};
use crate::bigfile::{Bigfile, BigfileIO};
use crate::objects::{yeti_unload, yeti_load, yeti_load_ok, YetiObjectView};
use crate::metadata::FileEntry;
use crate::error::{LoadError, YetiIOError, err_view, unset_key};
use crate::objects::{xml_list_pending, xml_list_finish, error_message, result_view};
use crate::objects::xml_consts::{XmlConstEvent, xml_run_ok};
use crate::bigfile::not_pending_message;

verus! {

broadcast use vstd::std_specs::hash::group_hash_axioms;

/// A first-in first-out queue of the `queues` crate.
#[verifier::external_type_specification]
#[verifier::external_body]
#[verifier::reject_recursive_types(T)]
pub struct ExQueue<T: Clone>(Queue<T>);

/// What a queue holds, oldest first.
pub uninterp spec fn queue_items(q: Queue<u32>) -> Seq<u32>;

/// `Queue::new` of the `queues` crate: an empty queue.
#[verifier::external_body]
fn queue_new() -> (r: Queue<u32>)
    ensures
        queue_items(r) == Seq::<u32>::empty(),
{
    Queue::new()
}

/// `IsQueue::add` of the `queues` crate: the value goes to the back (the crate's source
/// pushes it onto its vector and always answers `Ok(None)`, which is dropped here).
#[verifier::external_body]
fn queue_add(q: &mut Queue<u32>, v: u32)
    ensures
        queue_items(*final(q)) == queue_items(*old(q)).push(v),
{
    let _ = q.add(v);
}

/// `IsQueue::remove` of the `queues` crate: the oldest value, taken from the front; the
/// crate's error for an empty queue becomes none.
#[verifier::external_body]
fn queue_remove(q: &mut Queue<u32>) -> (r: Option<u32>)
    ensures
        queue_items(*old(q)).len() == 0 ==> r is None && queue_items(*final(q)) == queue_items(*old(q)),
        queue_items(*old(q)).len() > 0 ==> r == Some(queue_items(*old(q))[0])
            && queue_items(*final(q)) == queue_items(*old(q)).drop_first(),
{
    match q.remove() {
        Ok(v) => Some(v),
        Err(_) => None,
    }
}

/// What a load set offers.
pub trait LoadSet {
    fn loaded_by_type(&self, obj_type: ObjectType) -> Option<&Vec<u32>>;

    fn is_loaded(&self) -> bool;
}

/// A load of a key and of the keys it refers to, spread over calls: the keys met so far,
/// those loaded for each type (by the type's number), and those still to load.
pub struct AmortizedLoad {
    loaded: HashSet<u32>,
    type_map: HashMap<u16, Vec<u32>>,
    to_load: Vec<u32>,
}

pub struct AmortizedLoadView {
    pub loaded: Set<u32>,
    pub type_map: Map<u16, Seq<u32>>,
    pub to_load: Seq<u32>,
}

impl View for AmortizedLoad {
    type V = AmortizedLoadView;

    closed spec fn view(&self) -> AmortizedLoadView {
        AmortizedLoadView {
            loaded: self.loaded@,
            type_map: self.type_map@.map_values(|v: Vec<u32>| v@),
            to_load: self.to_load@,
        }
    }
}

/// The number of object types.
pub open spec fn num_types() -> u16 {
    149
}

impl AmortizedLoadView {
    /// A list for each object type; each list names loaded keys, once each.
    pub open spec fn wf(self) -> bool {
        &&& self.loaded.finite()
        &&& forall|c: u16| #[trigger] self.type_map.contains_key(c) <==> c < num_types()
        &&& forall|c: u16| #[trigger] self.type_map.contains_key(c) ==> self.type_map[c].no_duplicates()
            && forall|i: int| 0 <= i < self.type_map[c].len() ==> self.loaded.contains(#[trigger] self.type_map[c][i])
    }
}

impl LoadSet for AmortizedLoad {
    fn loaded_by_type(&self, obj_type: ObjectType) -> (r: Option<&Vec<u32>>)
        ensures
            match r {
                Some(v) => self@.type_map.contains_key(object_type_code(obj_type))
                    && v@ == self@.type_map[object_type_code(obj_type)],
                None => !self@.type_map.contains_key(object_type_code(obj_type)),
            },
    {
        self.type_map.get(&obj_type.repr())
    }

    fn is_loaded(&self) -> (r: bool)
        ensures
            r == (self@.to_load.len() == 0),
    {
        self.to_load.len() == 0
    }
}

impl Default for AmortizedLoad {
    fn default() -> (r: Self)
        ensures
            r@.wf(),
            r@.loaded == Set::<u32>::empty(),
            r@.to_load == seq![0xFFFF_FFFFu32],
            forall|c: u16| c < num_types() ==> r@.type_map[c] == Seq::<u32>::empty(),
    {
        Self::new(0xFFFF_FFFF)
    }
}

/// The keys to load after `load_num(num)`: those that were not queued, then queued keys not
/// met and valid.
pub open spec fn to_load_after(before: Seq<u32>, num: u32, after: AmortizedLoadView, ft: Map<u32, FileEntry>) -> bool {
    let n = before.len();
    let k = if num < n { num as int } else { n as int };
    &&& after.to_load.len() >= n - k
    &&& after.to_load.subrange(0, n - k) == before.subrange(k, n as int)
    &&& forall|i: int| n - k <= i < after.to_load.len() ==> {
        let key = #[trigger] after.to_load[i];
        &&& !after.loaded.contains(key)
        &&& ft.contains_key(key)
        &&& ft[key].offset != 0xFFFF_FFFF
    }
}

/// Each type's list only grows, by keys that were not met before and are files of that type.
pub open spec fn lists_extend(before: AmortizedLoadView, after: AmortizedLoadView, ft: Map<u32, FileEntry>) -> bool {
    &&& after.type_map.dom() == before.type_map.dom()
    &&& forall|c: u16| #[trigger] after.type_map.contains_key(c) ==> {
        let b = before.type_map[c];
        let a = after.type_map[c];
        &&& b.len() <= a.len()
        &&& a.subrange(0, b.len() as int) == b
        &&& forall|i: int| b.len() <= i < a.len() ==> !before.loaded.contains(#[trigger] a[i])
            && key_valid(ft, a[i])
            && object_type_code(ft[a[i]].object_type) == c
    }
}

proof fn lemma_lists_extend_trans(a: AmortizedLoadView, b: AmortizedLoadView, c: AmortizedLoadView, ft: Map<u32, FileEntry>)
    requires
        lists_extend(a, b, ft),
        lists_extend(b, c, ft),
        a.loaded.subset_of(b.loaded),
    ensures
        lists_extend(a, c, ft),
{
    assert forall|t: u16| #[trigger] c.type_map.contains_key(t) implies ({
        let x = a.type_map[t];
        let z = c.type_map[t];
        &&& x.len() <= z.len()
        &&& z.subrange(0, x.len() as int) == x
        &&& forall|i: int| x.len() <= i < z.len() ==> !a.loaded.contains(#[trigger] z[i])
            && key_valid(ft, z[i])
            && object_type_code(ft[z[i]].object_type) == t
    }) by {
        let x = a.type_map[t];
        let y = b.type_map[t];
        let z = c.type_map[t];
        assert(z.subrange(0, x.len() as int) =~= y.subrange(0, x.len() as int));
        assert forall|i: int| x.len() <= i < z.len() implies !a.loaded.contains(#[trigger] z[i])
            && key_valid(ft, z[i]) && object_type_code(ft[z[i]].object_type) == t by {
            if i < y.len() {
                assert(z[i] == y[i]);
            }
        }
    }
}

/// The key names a file whose data has a place in the bigfile.
pub open spec fn key_valid(ft: Map<u32, FileEntry>, key: u32) -> bool {
    ft.contains_key(key) && ft[key].offset != 0xFFFF_FFFF
}

/// What loading a file may leave of its object, and whether the load succeeded: an object
/// that a load holds is held once more (and at the most loads it cannot be, which fails);
/// one that none holds is either left as it was, with a failure, or loaded out of some
/// bytes on which the load does not abort, succeeding when the object's own load does.
#[verifier::opaque]
pub open spec fn load_outcome(before: YetiObjectView, after: YetiObjectView, ok: bool) -> bool {
    if before.load_refs == u32::MAX {
        !ok && after == before
    } else if before.load_refs > 0 {
        ok && after == YetiObjectView { load_refs: (before.load_refs + 1) as u32, ..before }
    } else {
        ||| (!ok && after == before)
        ||| exists|bytes: Seq<u8>| #![trigger yeti_load(before, bytes)]
            yeti_load_ok(before, bytes) && after == yeti_load(before, bytes).0
            && (ok <==> yeti_load(before, bytes).1 is Ok)
    }
}

/// The key is on the list of its file's type.
pub open spec fn type_listed(v: AmortizedLoadView, ft: Map<u32, FileEntry>, key: u32) -> bool {
    v.type_map[object_type_code(ft[key].object_type)].contains(key)
}

proof fn lemma_code_bound(t: ObjectType)
    ensures
        object_type_code(t) < num_types(),
{
}

/// The key was met by the load between the two states.
pub open spec fn newly_met(before: AmortizedLoadView, after: AmortizedLoadView, key: u32) -> bool {
    after.loaded.contains(key) && !before.loaded.contains(key)
}

/// The objects after a run of the load: only the valid keys it met were loaded, each as
/// loading its file may leave it, and each is on its type's list exactly when its load
/// succeeded.
pub open spec fn met_objects(
    before: AmortizedLoadView,
    after: AmortizedLoadView,
    ob: Map<u32, YetiObjectView>,
    oa: Map<u32, YetiObjectView>,
    ft: Map<u32, FileEntry>,
) -> bool {
    &&& oa.dom() == ob.dom()
    &&& forall|k: u32| #[trigger] oa.contains_key(k) && !(newly_met(before, after, k) && key_valid(ft, k))
        ==> oa[k] == ob[k]
    &&& forall|k: u32| #[trigger] newly_met(before, after, k) && key_valid(ft, k)
        ==> ob.contains_key(k) && load_outcome(ob[k], oa[k], type_listed(after, ft, k))
}

/// Each reference of an object that the run loaded is met, invalid, or still pending.
pub open spec fn refs_followed(
    before: AmortizedLoadView,
    after: AmortizedLoadView,
    oa: Map<u32, YetiObjectView>,
    ft: Map<u32, FileEntry>,
    pending: Seq<u32>,
) -> bool {
    forall|k: u32, i: int| #![trigger newly_met(before, after, k), oa[k].references[i]]
        newly_met(before, after, k) && key_valid(ft, k) && type_listed(after, ft, k)
        && 0 <= i < oa[k].references.len() ==> {
            let r = oa[k].references[i];
            after.loaded.contains(r) || !key_valid(ft, r) || pending.contains(r)
        }
}

/// What `visit` does: the key is met and, when valid, loaded; on success it joins its
/// type's list and its references are queued.
spec fn visited(
    before: AmortizedLoadView,
    after: AmortizedLoadView,
    ob: Map<u32, YetiObjectView>,
    oa: Map<u32, YetiObjectView>,
    ft: Map<u32, FileEntry>,
    key: u32,
    qb: Seq<u32>,
    qa: Seq<u32>,
) -> bool {
    &&& after.loaded == before.loaded.insert(key)
    &&& after.to_load == before.to_load
    &&& if !key_valid(ft, key) {
        oa == ob && after.type_map == before.type_map && qa == qb
    } else {
        let listed = type_listed(after, ft, key);
        let c = object_type_code(ft[key].object_type);
        &&& ob.contains_key(key)
        &&& oa == ob.insert(key, oa[key])
        &&& load_outcome(ob[key], oa[key], listed)
        &&& after.type_map == if listed {
            before.type_map.insert(c, before.type_map[c].push(key))
        } else {
            before.type_map
        }
        &&& qa == if listed { qb + oa[key].references } else { qb }
    }
}

/// The key was to load before the run, or is a reference of an object that the run loaded.
pub open spec fn queued_by(
    before: AmortizedLoadView,
    after: AmortizedLoadView,
    oa: Map<u32, YetiObjectView>,
    ft: Map<u32, FileEntry>,
    x: u32,
) -> bool {
    ||| before.to_load.contains(x)
    ||| exists|k: u32| #[trigger] newly_met(before, after, k) && key_valid(ft, k) && type_listed(after, ft, k)
        && oa[k].references.contains(x)
}

/// Every key that the run met, and every key pending, was queued: to load before the run,
/// or referred to by an object that the run loaded.
pub open spec fn sources_ok(
    before: AmortizedLoadView,
    after: AmortizedLoadView,
    oa: Map<u32, YetiObjectView>,
    ft: Map<u32, FileEntry>,
    pending: Seq<u32>,
) -> bool {
    &&& forall|x: u32| #[trigger] newly_met(before, after, x) ==> queued_by(before, after, oa, ft, x)
    &&& forall|i: int| 0 <= i < pending.len() ==> queued_by(before, after, oa, ft, #[trigger] pending[i])
}

proof fn lemma_queued_by_grows(
    o: AmortizedLoadView,
    mid: AmortizedLoadView,
    aft: AmortizedLoadView,
    om: Map<u32, YetiObjectView>,
    oa: Map<u32, YetiObjectView>,
    ft: Map<u32, FileEntry>,
    key: u32,
    x: u32,
)
    requires
        mid.wf(),
        o.loaded.subset_of(mid.loaded),
        !mid.loaded.contains(key),
        aft.loaded == mid.loaded.insert(key),
        forall|k: u32| k != key ==> #[trigger] type_listed(aft, ft, k) == type_listed(mid, ft, k),
        forall|k: u32| k != key ==> #[trigger] oa[k] == om[k],
        queued_by(o, mid, om, ft, x),
    ensures
        queued_by(o, aft, oa, ft, x),
{
    if !o.to_load.contains(x) {
        let k = choose|k: u32| #[trigger] newly_met(o, mid, k) && key_valid(ft, k) && type_listed(mid, ft, k)
            && om[k].references.contains(x);
        assert(k != key);
        assert(newly_met(o, aft, k));
        assert(type_listed(aft, ft, k));
        assert(oa[k] == om[k]);
    }
}

proof fn lemma_visit_sources(
    o: AmortizedLoadView,
    mid: AmortizedLoadView,
    aft: AmortizedLoadView,
    om: Map<u32, YetiObjectView>,
    oa: Map<u32, YetiObjectView>,
    ft: Map<u32, FileEntry>,
    q: Seq<u32>,
    qa: Seq<u32>,
)
    requires
        mid.wf(),
        o.loaded.subset_of(mid.loaded),
        q.len() > 0,
        !mid.loaded.contains(q[0]),
        sources_ok(o, mid, om, ft, mid.to_load + q),
        visited(mid, aft, om, oa, ft, q[0], q.drop_first(), qa),
    ensures
        sources_ok(o, aft, oa, ft, aft.to_load + qa),
{
    let key = q[0];
    assert forall|k: u32| k != key implies #[trigger] type_listed(aft, ft, k) == type_listed(mid, ft, k) by {
        if key_valid(ft, key) && type_listed(aft, ft, key) {
            let c = object_type_code(ft[key].object_type);
            let kc = object_type_code(ft[k].object_type);
            if kc == c {
                assert(aft.type_map[c] == mid.type_map[c].push(key));
                if mid.type_map[c].contains(k) {
                    let j = choose|j: int| 0 <= j < mid.type_map[c].len() && mid.type_map[c][j] == k;
                    assert(aft.type_map[c][j] == k);
                }
                if aft.type_map[c].contains(k) {
                    let j = choose|j: int| 0 <= j < aft.type_map[c].len() && aft.type_map[c][j] == k;
                    assert(mid.type_map[c][j] == k);
                }
            }
        }
    }
    assert forall|k: u32| k != key implies #[trigger] oa[k] == om[k] by {}
    assert((mid.to_load + q)[mid.to_load.len() as int] == key);
    lemma_queued_by_grows(o, mid, aft, om, oa, ft, key, key);
    assert forall|x: u32| #[trigger] newly_met(o, aft, x) implies queued_by(o, aft, oa, ft, x) by {
        if x != key {
            assert(newly_met(o, mid, x));
            lemma_queued_by_grows(o, mid, aft, om, oa, ft, key, x);
        }
    }
    assert forall|i: int| 0 <= i < (aft.to_load + qa).len() implies queued_by(o, aft, oa, ft, #[trigger] (aft.to_load + qa)[i]) by {
        let x = (aft.to_load + qa)[i];
        let p = q.drop_first().len() as int;
        let t = aft.to_load.len() as int;
        if i < t {
            assert(x == (mid.to_load + q)[i]);
            lemma_queued_by_grows(o, mid, aft, om, oa, ft, key, x);
        } else if i - t < p {
            assert(qa[i - t] == q.drop_first()[i - t]);
            assert(x == (mid.to_load + q)[i + 1]);
            lemma_queued_by_grows(o, mid, aft, om, oa, ft, key, x);
        } else {
            assert(key_valid(ft, key) && type_listed(aft, ft, key));
            assert(qa == q.drop_first() + oa[key].references);
            assert(oa[key].references[i - t - p] == x);
            assert(oa[key].references.contains(x));
            assert(newly_met(o, aft, key));
        }
    }
}

proof fn lemma_skip_sources(o: AmortizedLoadView, v: AmortizedLoadView, objs: Map<u32, YetiObjectView>, ft: Map<u32, FileEntry>, q: Seq<u32>)
    requires
        q.len() > 0,
        sources_ok(o, v, objs, ft, v.to_load + q),
    ensures
        sources_ok(o, v, objs, ft, v.to_load + q.drop_first()),
{
    assert forall|i: int| 0 <= i < (v.to_load + q.drop_first()).len() implies queued_by(o, v, objs, ft, #[trigger] (v.to_load + q.drop_first())[i]) by {
        if i < v.to_load.len() {
            assert((v.to_load + q.drop_first())[i] == (v.to_load + q)[i]);
        } else {
            assert((v.to_load + q.drop_first())[i] == (v.to_load + q)[i + 1]);
        }
    }
}

proof fn lemma_drain_sources(
    o: AmortizedLoadView,
    v: AmortizedLoadView,
    v2: AmortizedLoadView,
    objs: Map<u32, YetiObjectView>,
    ft: Map<u32, FileEntry>,
    q: Seq<u32>,
)
    requires
        q.len() > 0,
        v2.loaded == v.loaded,
        v2.type_map == v.type_map,
        v2.to_load == v.to_load.push(q[0]) || v2.to_load == v.to_load,
        sources_ok(o, v, objs, ft, v.to_load + q),
    ensures
        sources_ok(o, v2, objs, ft, v2.to_load + q.drop_first()),
{
    assert forall|k: u32| #[trigger] newly_met(o, v2, k) == newly_met(o, v, k) by {}
    assert forall|k: u32| #[trigger] type_listed(v2, ft, k) == type_listed(v, ft, k) by {}
    assert forall|x: u32| queued_by(o, v, objs, ft, x) implies #[trigger] queued_by(o, v2, objs, ft, x) by {
        if !o.to_load.contains(x) {
            let k = choose|k: u32| #[trigger] newly_met(o, v, k) && key_valid(ft, k) && type_listed(v, ft, k)
                && objs[k].references.contains(x);
            assert(newly_met(o, v2, k));
        }
    }
    assert forall|i: int| 0 <= i < (v2.to_load + q.drop_first()).len() implies queued_by(o, v2, objs, ft, #[trigger] (v2.to_load + q.drop_first())[i]) by {
        let x = (v2.to_load + q.drop_first())[i];
        if i < v.to_load.len() {
            assert(x == (v.to_load + q)[i]);
        } else if v2.to_load == v.to_load {
            assert(x == (v.to_load + q)[i + 1]);
        } else if i == v.to_load.len() {
            assert(x == (v.to_load + q)[i]);
        } else {
            assert(x == (v.to_load + q)[i]);
        }
    }
}

proof fn lemma_visit_keeps(
    o: AmortizedLoadView,
    mid: AmortizedLoadView,
    aft: AmortizedLoadView,
    ob: Map<u32, YetiObjectView>,
    om: Map<u32, YetiObjectView>,
    oa: Map<u32, YetiObjectView>,
    ft: Map<u32, FileEntry>,
    q: Seq<u32>,
    qa: Seq<u32>,
)
    requires
        mid.wf(),
        o.loaded.subset_of(mid.loaded),
        q.len() > 0,
        !mid.loaded.contains(q[0]),
        met_objects(o, mid, ob, om, ft),
        refs_followed(o, mid, om, ft, mid.to_load + q),
        visited(mid, aft, om, oa, ft, q[0], q.drop_first(), qa),
    ensures
        met_objects(o, aft, ob, oa, ft),
        refs_followed(o, aft, oa, ft, aft.to_load + qa),
{
    let key = q[0];
    assert forall|k: u32| k != key implies #[trigger] type_listed(aft, ft, k) == type_listed(mid, ft, k) by {
        if key_valid(ft, key) && type_listed(aft, ft, key) {
            let c = object_type_code(ft[key].object_type);
            let kc = object_type_code(ft[k].object_type);
            if kc == c {
                assert(aft.type_map[c] == mid.type_map[c].push(key));
                if mid.type_map[c].contains(k) {
                    let j = choose|j: int| 0 <= j < mid.type_map[c].len() && mid.type_map[c][j] == k;
                    assert(aft.type_map[c][j] == k);
                }
                if aft.type_map[c].contains(k) {
                    let j = choose|j: int| 0 <= j < aft.type_map[c].len() && aft.type_map[c][j] == k;
                    assert(mid.type_map[c][j] == k);
                }
            }
        }
    }
    assert forall|k: u32| k != key implies #[trigger] newly_met(o, aft, k) == newly_met(o, mid, k) by {}
    assert(!o.loaded.contains(key));
    assert(newly_met(o, aft, key));
    assert forall|k: u32| k != key && #[trigger] om.contains_key(k) implies oa[k] == om[k] by {}
    assert(oa.dom() =~= om.dom()) by {
        if key_valid(ft, key) {
            assert(om.contains_key(key));
        }
    }
    assert forall|k: u32| #[trigger] oa.contains_key(k) && !(newly_met(o, aft, k) && key_valid(ft, k)) implies oa[k] == ob[k] by {
        if k != key {
            assert(newly_met(o, aft, k) == newly_met(o, mid, k));
        }
    }
    assert forall|k: u32| #[trigger] newly_met(o, aft, k) && key_valid(ft, k) implies ob.contains_key(k)
        && load_outcome(ob[k], oa[k], type_listed(aft, ft, k)) by {
        if k != key {
            assert(newly_met(o, mid, k));
            assert(oa[k] == om[k]);
            assert(type_listed(aft, ft, k) == type_listed(mid, ft, k));
        } else {
            assert(om.contains_key(k));
            assert(!newly_met(o, mid, k));
            assert(om[k] == ob[k]);
        }
    }
    assert forall|k: u32, i: int| #![trigger newly_met(o, aft, k), oa[k].references[i]]
        newly_met(o, aft, k) && key_valid(ft, k) && type_listed(aft, ft, k)
        && 0 <= i < oa[k].references.len() implies {
            let r = oa[k].references[i];
            aft.loaded.contains(r) || !key_valid(ft, r) || (aft.to_load + qa).contains(r)
        } by {
        let r = oa[k].references[i];
        if k != key {
            assert(newly_met(o, mid, k));
            assert(oa[k] == om[k]);
            assert(type_listed(aft, ft, k) == type_listed(mid, ft, k));
            assert(om[k].references[i] == r);
            if !mid.loaded.contains(r) && key_valid(ft, r) {
                assert((mid.to_load + q).contains(r));
                let j = choose|j: int| 0 <= j < (mid.to_load + q).len() && (mid.to_load + q)[j] == r;
                if j < mid.to_load.len() {
                    assert((aft.to_load + qa)[j] == r);
                } else if j > mid.to_load.len() {
                    let d = j - mid.to_load.len() - 1;
                    assert(q.drop_first()[d] == r);
                    assert(qa[d] == r);
                    assert((aft.to_load + qa)[aft.to_load.len() + d] == r);
                }
            }
        } else {
            let p = q.drop_first().len();
            assert(qa == q.drop_first() + oa[key].references);
            assert(qa[p + i] == r);
            assert((aft.to_load + qa)[aft.to_load.len() + p + i] == r);
        }
    }
}

proof fn lemma_skip_keeps(o: AmortizedLoadView, v: AmortizedLoadView, objs: Map<u32, YetiObjectView>, ft: Map<u32, FileEntry>, q: Seq<u32>)
    requires
        q.len() > 0,
        v.loaded.contains(q[0]),
        refs_followed(o, v, objs, ft, v.to_load + q),
    ensures
        refs_followed(o, v, objs, ft, v.to_load + q.drop_first()),
{
    assert forall|x: u32| #[trigger] (v.to_load + q).contains(x) && !v.loaded.contains(x)
        implies (v.to_load + q.drop_first()).contains(x) by {
        let j = choose|j: int| 0 <= j < (v.to_load + q).len() && (v.to_load + q)[j] == x;
        if j < v.to_load.len() {
            assert((v.to_load + q.drop_first())[j] == x);
        } else {
            assert(j != v.to_load.len());
            assert((v.to_load + q.drop_first())[j - 1] == x);
        }
    }
}

proof fn lemma_drain_keeps(
    o: AmortizedLoadView,
    v: AmortizedLoadView,
    v2: AmortizedLoadView,
    ob: Map<u32, YetiObjectView>,
    objs: Map<u32, YetiObjectView>,
    ft: Map<u32, FileEntry>,
    q: Seq<u32>,
)
    requires
        q.len() > 0,
        v2.loaded == v.loaded,
        v2.type_map == v.type_map,
        v2.to_load == v.to_load.push(q[0]) || (v2.to_load == v.to_load
            && (v.loaded.contains(q[0]) || !key_valid(ft, q[0]))),
        met_objects(o, v, ob, objs, ft),
        refs_followed(o, v, objs, ft, v.to_load + q),
    ensures
        met_objects(o, v2, ob, objs, ft),
        refs_followed(o, v2, objs, ft, v2.to_load + q.drop_first()),
{
    assert forall|k: u32| #[trigger] newly_met(o, v2, k) == newly_met(o, v, k) by {}
    assert forall|k: u32| #[trigger] type_listed(v2, ft, k) == type_listed(v, ft, k) by {}
    assert forall|x: u32| #[trigger] (v.to_load + q).contains(x) && !v.loaded.contains(x) && key_valid(ft, x)
        implies (v2.to_load + q.drop_first()).contains(x) by {
        let j = choose|j: int| 0 <= j < (v.to_load + q).len() && (v.to_load + q)[j] == x;
        if j < v.to_load.len() {
            assert((v2.to_load + q.drop_first())[j] == x);
        } else if j == v.to_load.len() {
            assert(v2.to_load == v.to_load.push(q[0]));
            assert((v2.to_load + q.drop_first())[j] == x);
        } else if v2.to_load == v.to_load {
            assert((v2.to_load + q.drop_first())[j - 1] == x);
        } else {
            assert((v2.to_load + q.drop_first())[j] == x);
        }
    }
}

/// Loads the key when it is valid, queueing its references when the load succeeds; the
/// number of its type then. An invalid key changes nothing; an object that a load already
/// holds is held once more and gives its type's number.
fn load_key<IO: BigfileIO>(bf: &mut Bigfile<IO>, key: u32, tmp: &mut Queue<u32>) -> (r: Option<u16>)
    requires
        old(bf).wf(),
    ensures
        final(bf).wf(),
        final(bf).file_table@ == old(bf).file_table@,
        r matches Some(c) ==> c < num_types() && final(bf).file_table@.contains_key(key)
            && object_type_code(final(bf).file_table@[key].object_type) == c,
        !key_valid(old(bf).file_table@, key) ==> r is None && final(bf).objects() == old(bf).objects()
            && queue_items(*final(tmp)) == queue_items(*old(tmp)),
        key_valid(old(bf).file_table@, key) ==> old(bf).objects().contains_key(key)
            && final(bf).objects() == old(bf).objects().insert(key, final(bf).objects()[key])
            && load_outcome(old(bf).objects()[key], final(bf).objects()[key], r is Some),
        r is Some ==> key_valid(old(bf).file_table@, key)
            && queue_items(*final(tmp)) == queue_items(*old(tmp)) + final(bf).objects()[key].references,
        r is None ==> queue_items(*final(tmp)) == queue_items(*old(tmp)),
{
    reveal(load_outcome);
    if !bf.is_key_valid(YKey(key)) {
        return None;
    }
    match bf.load_file(YKey(key)) {
        Ok(_) => {
            match bf.object_table.get(&key) {
                Some(obj) => {
                    let refs = obj.get_references();
                    let mut m: usize = 0;
                    while m < refs.len()
                        invariant
                            m <= refs@.len(),
                            queue_items(*tmp) == queue_items(*old(tmp)) + refs@.subrange(0, m as int),
                        decreases refs@.len() - m,
                    {
                        queue_add(tmp, refs[m]);
                        assert(refs@.subrange(0, m + 1) =~= refs@.subrange(0, m as int).push(refs@[m as int]));
                        m = m + 1;
                    }
                    assert(refs@.subrange(0, refs@.len() as int) =~= refs@);
                },
                None => {
                    proof {
                        assert(bf.file_table@.contains_key(key));
                        assert(bf.object_table@.contains_key(key));
                    }
                },
            }
            match bf.file_table.get(&key) {
                Some(e) => Some(e.object_type.repr()),
                None => {
                    proof {
                        assert(bf.file_table@.contains_key(key));
                    }
                    None
                },
            }
        },
        Err(_) => None,
    }
}

/// An object after `unload_all`: one load fewer when its key was met and is valid.
pub open spec fn unload_target(objs: Map<u32, YetiObjectView>, ft: Map<u32, FileEntry>, k: u32, met: bool) -> YetiObjectView {
    if met && ft.contains_key(k) && ft[k].offset != 0xFFFF_FFFF {
        yeti_unload(objs[k])
    } else {
        objs[k]
    }
}

/// The text of a load status: how many keys were met, a slash, and how many there are
/// with those still to load.
pub open spec fn load_status_text(done: nat, total: nat) -> Seq<char> {
    decimal_text(done as int) + " / "@ + decimal_text(total as int)
}

impl AmortizedLoad {
    /// A load of `initial_key`: nothing met yet, an empty list for each object type.
    pub fn new(initial_key: u32) -> (r: Self)
        ensures
            r@.wf(),
            r@.loaded == Set::<u32>::empty(),
            r@.to_load == seq![initial_key],
            forall|c: u16| c < num_types() ==> r@.type_map[c] == Seq::<u32>::empty(),
    {
        let mut type_map: HashMap<u16, Vec<u32>> = HashMap::new();
        let mut c: u16 = 0;
        while c < 149
            invariant
                c <= 149,
                forall|d: u16| #[trigger] type_map@.contains_key(d) <==> d < c,
                forall|d: u16| #[trigger] type_map@.contains_key(d) ==> type_map@[d]@ == Seq::<u32>::empty(),
            decreases 149 - c,
        {
            type_map.insert(c, Vec::new());
            c = c + 1;
        }
        let mut to_load = Vec::new();
        to_load.push(initial_key);
        let r = AmortizedLoad { loaded: HashSet::new(), type_map, to_load };
        assert(r@.to_load =~= seq![initial_key]);
        r
    }

    /// Loads up to `num` keys: the first `num` keys still to load are queued; each queued
    /// key not met yet is loaded when it is valid (its references are queued after it and,
    /// when the load succeeds, it joins the list of its type) and is then met. A turn in
    /// which the queue is empty counts too. The queued keys left, not met and valid, are
    /// kept to load. True when everything is loaded: nothing was to load, or the queue and
    /// the keys to load ran out before `num` keys were met. With `num > 0` the first key
    /// still to load is always met, so every call makes progress.
    pub fn load_num<IO: BigfileIO>(&mut self, bf: &mut Bigfile<IO>, num: u32) -> (r: bool)
        requires
            old(self)@.wf(),
            old(bf).wf(),
        ensures
            final(self)@.wf(),
            final(bf).wf(),
            final(bf).file_table@ == old(bf).file_table@,
            old(self)@.to_load.len() == 0 ==> final(self)@ == old(self)@
                && final(bf).objects() == old(bf).objects(),
            r == (old(self)@.to_load.len() == 0 || (old(self)@.to_load.len() <= num
                && final(self)@.loaded.len() < old(self)@.loaded.len() + num)),
            r ==> final(self)@.to_load.len() == 0,
            old(self)@.loaded.subset_of(final(self)@.loaded),
            final(self)@.loaded.len() <= old(self)@.loaded.len() + num,
            to_load_after(old(self)@.to_load, num, final(self)@, final(bf).file_table@),
            lists_extend(old(self)@, final(self)@, final(bf).file_table@),
            met_objects(old(self)@, final(self)@, old(bf).objects(), final(bf).objects(), final(bf).file_table@),
            refs_followed(old(self)@, final(self)@, final(bf).objects(), final(bf).file_table@, final(self)@.to_load),
            sources_ok(old(self)@, final(self)@, final(bf).objects(), final(bf).file_table@, final(self)@.to_load),
            num > 0 && old(self)@.to_load.len() > 0 ==> final(self)@.loaded.contains(old(self)@.to_load[0]),
    {
        if self.to_load.len() == 0 {
            proof {
                assert forall|c: u16| #[trigger] self@.type_map.contains_key(c) implies self@.type_map[c].subrange(0, self@.type_map[c].len() as int)
                    == self@.type_map[c] by {
                    assert(self@.type_map[c].subrange(0, self@.type_map[c].len() as int) =~= self@.type_map[c]);
                }
            }
            return true;
        }
        let ghost old_view = self@;
        let n = self.to_load.len();
        let k: usize = if (num as usize) < n { num as usize } else { n };
        let mut tmp = queue_new();
        let mut i: usize = 0;
        while i < k
            invariant
                k <= n,
                n == self.to_load@.len(),
                i <= k,
                queue_items(tmp) == self.to_load@.subrange(0, i as int),
            decreases k - i,
        {
            queue_add(&mut tmp, self.to_load[i]);
            assert(queue_items(tmp) =~= self.to_load@.subrange(0, i + 1));
            i = i + 1;
        }
        let ghost first = self.to_load@[0];
        let mut rest: Vec<u32> = Vec::new();
        let mut j: usize = k;
        while j < n
            invariant
                k <= j <= n,
                n == self.to_load@.len(),
                rest@ == self.to_load@.subrange(k as int, j as int),
            decreases n - j,
        {
            rest.push(self.to_load[j]);
            assert(rest@ =~= self.to_load@.subrange(k as int, j + 1));
            j = j + 1;
        }
        self.to_load = rest;
        assert(lists_extend(old_view, self@, bf.file_table@)) by {
            assert forall|c: u16| #[trigger] self@.type_map.contains_key(c) implies self@.type_map[c].subrange(0, old_view.type_map[c].len() as int)
                == old_view.type_map[c] by {
                assert(self@.type_map[c].subrange(0, old_view.type_map[c].len() as int) =~= old_view.type_map[c]);
            }
        }
        assert(forall|x: u32| !#[trigger] newly_met(old_view, self@, x));
        assert forall|i: int| 0 <= i < (self@.to_load + queue_items(tmp)).len()
            implies queued_by(old_view, self@, bf.objects(), bf.file_table@, #[trigger] (self@.to_load + queue_items(tmp))[i]) by {
            let x = (self@.to_load + queue_items(tmp))[i];
            if i < self@.to_load.len() {
                assert(x == old_view.to_load[k + i]);
            } else {
                assert(x == old_view.to_load[i - self@.to_load.len()]);
            }
        }
        let ghost objs0 = bf.objects();
        let mut counter: u32 = 0;
        let ghost mut first_done = false;
        let ghost mut visits: nat = 0;
        let ghost mut empties: nat = 0;
        while counter < num
            invariant
                !first_done ==> counter == 0 && queue_items(tmp) == old_view.to_load.subrange(0, k as int),
                first_done ==> self@.loaded.contains(first),
                first == old_view.to_load[0],
                self@.wf(),
                bf.wf(),
                bf.file_table@ == old(bf).file_table@,
                old_view == old(self)@,
                objs0 == old(bf).objects(),
                old_view.wf(),
                old_view.loaded.subset_of(self@.loaded),
                self@.loaded.len() == old_view.loaded.len() + visits,
                counter == visits + empties,
                empties > 0 ==> k < n,
                counter <= num,
                self@.to_load == old_view.to_load.subrange(k as int, n as int),
                n == old_view.to_load.len(),
                n > 0,
                k == (if num < n { num as int } else { n as int }),
                lists_extend(old_view, self@, bf.file_table@),
                met_objects(old_view, self@, objs0, bf.objects(), bf.file_table@),
                refs_followed(old_view, self@, bf.objects(), bf.file_table@, self@.to_load + queue_items(tmp)),
                sources_ok(old_view, self@, bf.objects(), bf.file_table@, self@.to_load + queue_items(tmp)),
            decreases num - counter, queue_items(tmp).len(),
        {
            let ghost was_first = !first_done;
            let ghost q = queue_items(tmp);
            match queue_remove(&mut tmp) {
                Some(key) => {
                    proof {
                        if was_first {
                            assert(key == first);
                        }
                    }
                    if self.loaded.contains(&key) {
                        proof {
                            first_done = true;
                            lemma_skip_keeps(old_view, self@, bf.objects(), bf.file_table@, q);
                            lemma_skip_sources(old_view, self@, bf.objects(), bf.file_table@, q);
                        }
                        continue;
                    }
                    let ghost mid = self@;
                    let ghost om = bf.objects();
                    self.visit(bf, key, &mut tmp);
                    proof {
                        lemma_lists_extend_trans(old_view, mid, self@, bf.file_table@);
                        lemma_visit_keeps(old_view, mid, self@, objs0, om, bf.objects(), bf.file_table@, q, queue_items(tmp));
                        lemma_visit_sources(old_view, mid, self@, om, bf.objects(), bf.file_table@, q, queue_items(tmp));
                        first_done = true;
                        visits = visits + 1;
                    }
                },
                None => {
                    if self.to_load.len() == 0 {
                        assert(self@.to_load.subrange(0, 0) =~= old_view.to_load.subrange(k as int, n as int));
                        assert(self@.to_load + queue_items(tmp) =~= self@.to_load);
                        return true;
                    }
                    proof {
                        empties = empties + 1;
                    }
                },
            }
            counter = counter + 1;
        }
        let ghost kept = self@.to_load.len();
        loop
            invariant
                num > 0 ==> self@.loaded.contains(first),
                first == old_view.to_load[0],
                self@.wf(),
                bf.wf(),
                bf.file_table@ == old(bf).file_table@,
                old_view == old(self)@,
                objs0 == old(bf).objects(),
                old_view.loaded.subset_of(self@.loaded),
                self@.loaded.len() <= old_view.loaded.len() + num,
                !(n <= num && self@.loaded.len() < old_view.loaded.len() + num),
                n == old_view.to_load.len(),
                n > 0,
                k == (if num < n { num as int } else { n as int }),
                kept == n - k,
                self@.to_load.len() >= kept,
                self@.to_load.subrange(0, kept as int) == old_view.to_load.subrange(k as int, n as int),
                forall|i: int| kept <= i < self@.to_load.len() ==> {
                    let key = #[trigger] self@.to_load[i];
                    &&& !self@.loaded.contains(key)
                    &&& bf.file_table@.contains_key(key)
                    &&& bf.file_table@[key].offset != 0xFFFF_FFFF
                },
                lists_extend(old_view, self@, bf.file_table@),
                met_objects(old_view, self@, objs0, bf.objects(), bf.file_table@),
                refs_followed(old_view, self@, bf.objects(), bf.file_table@, self@.to_load + queue_items(tmp)),
                sources_ok(old_view, self@, bf.objects(), bf.file_table@, self@.to_load + queue_items(tmp)),
            decreases queue_items(tmp).len(),
        {
            let ghost q = queue_items(tmp);
            let ghost v = self@;
            match queue_remove(&mut tmp) {
                Some(key) => {
                    if !self.loaded.contains(&key) && bf.is_key_valid(YKey(key)) {
                        let ghost before = self@.to_load;
                        self.to_load.push(key);
                        assert(self@.to_load.subrange(0, kept as int) =~= before.subrange(0, kept as int));
                    }
                    proof {
                        lemma_drain_keeps(old_view, v, self@, objs0, bf.objects(), bf.file_table@, q);
                        lemma_drain_sources(old_view, v, self@, bf.objects(), bf.file_table@, q);
                    }
                },
                None => {
                    assert(self@.to_load + queue_items(tmp) =~= self@.to_load);
                    return false;
                },
            }
        }
    }

    /// Loads a key not met yet when it is valid (queueing its references and, when the
    /// load succeeds, adding it to the list of its type), and meets it.
    fn visit<IO: BigfileIO>(&mut self, bf: &mut Bigfile<IO>, key: u32, tmp: &mut Queue<u32>)
        requires
            old(self)@.wf(),
            old(bf).wf(),
            !old(self)@.loaded.contains(key),
        ensures
            final(self)@.wf(),
            final(bf).wf(),
            final(bf).file_table@ == old(bf).file_table@,
            lists_extend(old(self)@, final(self)@, final(bf).file_table@),
            visited(old(self)@, final(self)@, old(bf).objects(), final(bf).objects(), old(bf).file_table@, key,
                queue_items(*old(tmp)), queue_items(*final(tmp))),
    {
        let ghost v0 = self@;
        let loaded_type = load_key(bf, key, tmp);
        proof {
            if key_valid(bf.file_table@, key) {
                lemma_code_bound(bf.file_table@[key].object_type);
            }
        }
        match loaded_type {
            Some(code) => {
                proof {
                    assert(v0.type_map.contains_key(code));
                    assert(!v0.type_map[code].contains(key)) by {
                        if v0.type_map[code].contains(key) {
                            let j = choose|j: int| 0 <= j < v0.type_map[code].len() && v0.type_map[code][j] == key;
                            assert(v0.loaded.contains(v0.type_map[code][j]));
                        }
                    }
                }
                self.note_type(key, code);
                proof {
                    assert forall|c: u16| #[trigger] self@.type_map.contains_key(c) implies self@.type_map[c].subrange(0, v0.type_map[c].len() as int) == v0.type_map[c] by {
                        assert(self@.type_map[c].subrange(0, v0.type_map[c].len() as int) =~= v0.type_map[c]);
                    }
                    assert(self@.type_map.dom() =~= v0.type_map.dom());
                    assert(self@.type_map[code].contains(key)) by {
                        assert(self@.type_map[code][v0.type_map[code].len() as int] == key);
                    }
                }
            },
            None => {
                proof {
                    assert forall|c: u16| #[trigger] self@.type_map.contains_key(c) implies self@.type_map[c].subrange(0, v0.type_map[c].len() as int) == v0.type_map[c] by {
                        assert(self@.type_map[c].subrange(0, v0.type_map[c].len() as int) =~= v0.type_map[c]);
                    }
                    if key_valid(bf.file_table@, key) {
                        let c = object_type_code(bf.file_table@[key].object_type);
                        assert(v0.type_map.contains_key(c));
                        assert(!v0.type_map[c].contains(key)) by {
                            if v0.type_map[c].contains(key) {
                                let j = choose|j: int| 0 <= j < v0.type_map[c].len() && v0.type_map[c][j] == key;
                                assert(v0.loaded.contains(v0.type_map[c][j]));
                            }
                        }
                    }
                }
            },
        }
        let ghost v1 = self@;
        self.loaded.insert(key);
        proof {
            assert(self@.type_map == v1.type_map);
            assert forall|c: u16| #[trigger] self@.type_map.contains_key(c) implies self@.type_map[c].no_duplicates()
                && forall|i: int| 0 <= i < self@.type_map[c].len() ==> self@.loaded.contains(#[trigger] self@.type_map[c][i]) by {
                assert forall|i: int| 0 <= i < self@.type_map[c].len() implies self@.loaded.contains(#[trigger] self@.type_map[c][i]) by {
                    if i < v0.type_map[c].len() {
                        assert(self@.type_map[c].subrange(0, v0.type_map[c].len() as int)[i] == v0.type_map[c][i]);
                    }
                }
                if loaded_type == Some(c) {
                    let b = v0.type_map[c];
                    assert(self@.type_map[c] == b.push(key));
                    assert forall|x: int, y: int| 0 <= x < y < b.len() + 1 implies self@.type_map[c][x] != self@.type_map[c][y] by {
                        if y == b.len() {
                            assert(v0.loaded.contains(b[x]));
                        }
                    }
                }
            }
        }
    }

    /// Adds `key`, which the list of type `code` does not hold, to its end.
    fn note_type(&mut self, key: u32, code: u16)
        requires
            old(self)@.wf(),
            !old(self)@.type_map[code].contains(key),
            code < num_types(),
        ensures
            final(self)@.loaded == old(self)@.loaded,
            final(self)@.to_load == old(self)@.to_load,
            final(self)@.type_map == old(self)@.type_map.insert(code, old(self)@.type_map[code].push(key)),
    {
        let ghost tm = self@.type_map;
        let mut list = match self.type_map.remove(&code) {
            Some(l) => l,
            None => Vec::new(),
        };
        let ghost before = list@;
        assert(tm.contains_key(code));
        assert(before == tm[code]);
        list.push(key);
        self.type_map.insert(code, list);
        assert(self@.type_map =~= tm.insert(code, before.push(key)));
    }

    /// Whether the list of type `code` holds `key`.
    fn type_list_has(&self, code: u16, key: u32) -> (r: bool)
        requires
            self@.wf(),
            code < num_types(),
        ensures
            r == self@.type_map[code].contains(key),
    {
        let list = match self.type_map.get(&code) {
            Some(l) => l,
            None => {
                assert(self@.type_map.contains_key(code));
                return false;
            },
        };
        let mut i: usize = 0;
        while i < list.len()
            invariant
                i <= list@.len(),
                list@ == self@.type_map[code],
                forall|j: int| 0 <= j < i ==> list@[j] != key,
            decreases list@.len() - i,
        {
            if list[i] == key {
                return true;
            }
            i = i + 1;
        }
        false
    }

    /// Finishes the load of the XML constant list with the key (see
    /// `Bigfile::finish_xml_const_list`). When that succeeds for a key this load met, that is
    /// valid and not yet on its type's list, the key joins the list and its references not
    /// met yet and valid are kept to load, as if its load had succeeded when it was met.
    pub fn finish_xml_const_list<IO: BigfileIO>(
        &mut self,
        bf: &mut Bigfile<IO>,
        key: YKey,
        events: &Vec<XmlConstEvent>,
        error: Option<YetiIOError>,
    ) -> (r: Result<(), LoadError>)
        requires
            old(self)@.wf(),
            old(bf).wf(),
            xml_run_ok(events@.map_values(|e: XmlConstEvent| e@)),
        ensures
            final(self)@.wf(),
            final(bf).wf(),
            final(bf).file_table@ == old(bf).file_table@,
            final(bf).folder_table@ == old(bf).folder_table@,
            if old(bf).objects().contains_key(key.0) && xml_list_pending(old(bf).objects()[key.0]) {
                let f = xml_list_finish(old(bf).objects()[key.0], events@.map_values(|e: XmlConstEvent| e@), error_message(error));
                &&& final(bf).objects() == old(bf).objects().insert(key.0, f.0)
                &&& result_view(r) == f.1
            } else {
                &&& final(bf).objects() == old(bf).objects()
                &&& r matches Err(e) && e@ == err_view(not_pending_message(), unset_key())
            },
            ({
                let ft = old(bf).file_table@;
                let o = old(self)@;
                if r is Ok && o.loaded.contains(key.0) && key_valid(ft, key.0) && !type_listed(o, ft, key.0) {
                    let c = object_type_code(ft[key.0].object_type);
                    &&& final(self)@.loaded == o.loaded
                    &&& final(self)@.type_map == o.type_map.insert(c, o.type_map[c].push(key.0))
                    &&& final(self)@.to_load == o.to_load + final(bf).objects()[key.0].references.filter(
                        |x: u32| !o.loaded.contains(x) && key_valid(ft, x),
                    )
                } else {
                    final(self)@ == o
                }
            }),
    {
        let r = bf.finish_xml_const_list(key, events, error);
        match r {
            Ok(()) => {},
            Err(e) => {
                return Err(e);
            },
        }
        if !self.loaded.contains(&key.0) || !bf.is_key_valid(key) {
            return r;
        }
        let code = match bf.file_table.get(&key.0) {
            Some(entry) => entry.object_type.repr(),
            None => {
                return r;
            },
        };
        proof {
            lemma_code_bound(bf.file_table@[key.0].object_type);
        }
        if self.type_list_has(code, key.0) {
            return r;
        }
        let ghost v0 = self@;
        self.note_type(key.0, code);
        proof {
            assert forall|c: u16| #[trigger] self@.type_map.contains_key(c) implies self@.type_map[c].no_duplicates()
                && forall|i: int| 0 <= i < self@.type_map[c].len() ==> self@.loaded.contains(#[trigger] self@.type_map[c][i]) by {
                if c == code {
                    let b = v0.type_map[c];
                    assert(self@.type_map[c] == b.push(key.0));
                    assert(v0.type_map.contains_key(c));
                    assert(b.no_duplicates());
                    assert(!b.contains(key.0));
                    assert forall|x: int, y: int| 0 <= x < y < b.len() + 1 implies self@.type_map[c][x] != self@.type_map[c][y] by {
                        assert(self@.type_map[c][x] == b[x]);
                        if y == b.len() {
                            assert(self@.type_map[c][y] == key.0);
                            assert(b.contains(b[x]));
                        } else {
                            assert(self@.type_map[c][y] == b[y]);
                        }
                    }
                    assert forall|i: int| 0 <= i < self@.type_map[c].len() implies self@.loaded.contains(#[trigger] self@.type_map[c][i]) by {
                        if i < b.len() {
                            assert(self@.type_map[c][i] == b[i]);
                        }
                    }
                }
            }
        }
        let obj = bf.object_table.get(&key.0).unwrap();
        let refs = obj.get_references();
        let ghost ft = bf.file_table@;
        let ghost met = self@.loaded;
        let ghost pred = |x: u32| !met.contains(x) && key_valid(ft, x);
        let ghost start = self@.to_load;
        let mut i: usize = 0;
        while i < refs.len()
            invariant
                i <= refs@.len(),
                refs@ == bf.objects()[key.0].references,
                ft == bf.file_table@,
                met == self@.loaded,
                met == v0.loaded,
                self@.type_map == v0.type_map.insert(code, v0.type_map[code].push(key.0)),
                self@.wf(),
                pred == (|x: u32| !met.contains(x) && key_valid(ft, x)),
                self@.to_load == start + refs@.subrange(0, i as int).filter(pred),
            decreases refs@.len() - i,
        {
            let x = refs[i];
            proof {
                assert(refs@.subrange(0, i + 1).drop_last() =~= refs@.subrange(0, i as int));
                assert(refs@.subrange(0, i + 1).last() == x);
                reveal(Seq::filter);
            }
            if !self.loaded.contains(&x) && bf.is_key_valid(YKey(x)) {
                let ghost before = self@.to_load;
                self.to_load.push(x);
                assert(self@.to_load =~= start + refs@.subrange(0, i + 1).filter(pred));
            } else {
                assert(self@.to_load =~= start + refs@.subrange(0, i + 1).filter(pred));
            }
            i = i + 1;
        }
        proof {
            assert(refs@.subrange(0, refs@.len() as int) =~= refs@);
        }
        r
    }

    /// Drops one load of each key met that is valid.
    pub fn unload_all<IO: BigfileIO>(&mut self, bf: &mut Bigfile<IO>)
        requires
            old(bf).wf(),
        ensures
            final(self)@ == old(self)@,
            final(bf).wf(),
            final(bf).file_table@ == old(bf).file_table@,
            final(bf).objects().dom() == old(bf).objects().dom(),
            forall|key: u32| #[trigger] final(bf).objects().contains_key(key) ==> final(bf).objects()[key]
                == unload_target(old(bf).objects(), old(bf).file_table@, key, old(self)@.loaded.contains(key)),
    {
        let ghost loaded = self.loaded@;
        for key in it: self.loaded.iter()
            invariant
                bf.wf(),
                bf.file_table@ == old(bf).file_table@,
                bf.objects().dom() == old(bf).objects().dom(),
                it.seq().unref().to_set() == loaded,
                it.seq().no_duplicates(),
                forall|k2: u32| #[trigger] bf.objects().contains_key(k2) ==> bf.objects()[k2] == unload_target(
                    old(bf).objects(), old(bf).file_table@, k2, exists|i: int| 0 <= i < it.index() && *it.seq()[i] == k2),
                it.index() == it.seq().len() ==> forall|k2: u32| (exists|i: int| 0 <= i < it.index() && *it.seq()[i] == k2) <==> #[trigger] loaded.contains(k2),
        {
            let ghost i0 = it.index();
            assert(*key == *it.seq()[i0]);
            let ghost before = bf.objects();
            let ghost seen = |k2: u32| exists|i: int| 0 <= i < i0 && *it.seq()[i] == k2;
            let ghost seen2 = |k2: u32| exists|i: int| 0 <= i < i0 + 1 && *it.seq()[i] == k2;
            proof {
                assert(!seen(*key)) by {
                    if seen(*key) {
                        let i = choose|i: int| 0 <= i < i0 && *it.seq()[i] == *key;
                        assert(it.seq()[i] == it.seq()[i0]);
                    }
                }
                assert(seen2(*key));
                assert forall|k2: u32| k2 != *key implies #[trigger] seen2(k2) == seen(k2) by {
                    if seen2(k2) {
                        let i = choose|i: int| 0 <= i < i0 + 1 && *it.seq()[i] == k2;
                        assert(i != i0);
                    }
                }
            }
            let valid = bf.is_key_valid(YKey(*key));
            if valid {
                let _ = bf.unload_file(YKey(*key));
            }
            proof {
                assert forall|k2: u32| #[trigger] bf.objects().contains_key(k2) implies bf.objects()[k2]
                    == unload_target(old(bf).objects(), old(bf).file_table@, k2, seen2(k2)) by {
                    assert(before.contains_key(k2));
                    if k2 == *key {
                        assert(before[k2] == unload_target(old(bf).objects(), old(bf).file_table@, k2, seen(k2)));
                        assert(before[k2] == old(bf).objects()[k2]);
                        if valid {
                            assert(bf.objects()[k2] == yeti_unload(before[k2]));
                        } else {
                            assert(bf.objects()[k2] == before[k2]);
                        }
                    } else {
                        assert(bf.objects()[k2] == before[k2]);
                        assert(seen2(k2) == seen(k2));
                    }
                }
                assert forall|k2: u32| i0 + 1 == it.seq().len() implies (seen2(k2) <==> #[trigger] loaded.contains(k2)) by {
                    if loaded.contains(k2) {
                        assert(it.seq().unref().to_set().contains(k2));
                        let i = choose|i: int| 0 <= i < it.seq().unref().len() && it.seq().unref()[i] == k2;
                        assert(*it.seq()[i] == k2);
                    }
                    if seen2(k2) {
                        let i = choose|i: int| 0 <= i < i0 + 1 && *it.seq()[i] == k2;
                        assert(it.seq().unref()[i] == k2);
                        assert(it.seq().unref().to_set().contains(k2));
                    }
                }
            }
        }
    }

    pub fn get_load_status(&self) -> (r: String)
        ensures
            r@ == load_status_text(self@.loaded.len(), self@.loaded.len() + self@.to_load.len()),
    {
        let done = self.loaded.len();
        let total = (done as i128) + (self.to_load.len() as i128);
        let s = format_decimal(done as i128);
        let t = format_decimal(total);
        proof {
            reveal_strlit(" / ");
        }
        s.concat(" / ").concat(t.as_str())
    }
}

} // verus!

use vstd::prelude::*;
use vstd::string::StringExecFns;
use crate::bytes::{ByteReader, avail, partial_len, fill_partial, read_partial_into, zero_bytes, copy_range};
use crate::error::{LoadError, eof_message, err_view, unset_key};
use crate::text::{utf8_result, decode_string, decimal_text, format_decimal};
use crate::objects::common::{
    ArchetypeImpl, Outcome, outcome_of, keyless, Step, list_run, lemma_list_run_stops, RawMat4,
    read_mat4, mat4_at,
};

verus! {

/// The index of a bone's parent; none for a root bone.
#[derive(Debug, Clone, Copy, PartialEq, Eq, Structural)]
pub struct BoneParent(pub Option<u8>);

impl From<Option<u8>> for BoneParent {
    fn from(value: Option<u8>) -> (r: Self) {
        BoneParent(value)
    }
}

impl vstd::std_specs::convert::FromSpecImpl<Option<u8>> for BoneParent {
    open spec fn obeys_from_spec() -> bool {
        true
    }

    open spec fn from_spec(v: Option<u8>) -> Self {
        BoneParent(v)
    }
}

impl From<BoneParent> for Option<u8> {
    fn from(value: BoneParent) -> (r: Self) {
        value.0
    }
}

impl vstd::std_specs::convert::FromSpecImpl<BoneParent> for Option<u8> {
    open spec fn obeys_from_spec() -> bool {
        true
    }

    open spec fn from_spec(v: BoneParent) -> Self {
        v.0
    }
}

impl Default for BoneParent {
    fn default() -> (r: Self)
        ensures
            r == BoneParent(None),
    {
        BoneParent(None)
    }
}

/// How a bone parent is shown: the index in decimal, or "None".
pub open spec fn bone_parent_text(p: BoneParent) -> Seq<char> {
    match p.0 {
        Some(v) => decimal_text(v as int),
        None => "None"@,
    }
}

impl BoneParent {
    pub fn to_string(&self) -> (r: String)
        ensures
            r@ == bone_parent_text(*self),
    {
        match self.0 {
            Some(v) => format_decimal(v as i128),
            None => {
                proof {
                    reveal_strlit("None");
                }
                <String as StringExecFns>::from_str("None")
            },
        }
    }
}

/// A bone: its name, parent and children, and its two matrices (float bit patterns).
#[derive(Debug)]
pub struct Bone {
    name: String,
    pub unk_01: [u8; 4],
    pub parent: BoneParent,
    pub children: Vec<u8>,
    pub data: [u8; 63],
    pub bind_matrix: RawMat4,
    pub inv_bind_matrix: RawMat4,
}

pub struct BoneView {
    pub name: Seq<char>,
    pub unk_01: Seq<u8>,
    pub parent: Option<u8>,
    pub children: Seq<u8>,
    pub data: Seq<u8>,
    pub bind_matrix: RawMat4,
    pub inv_bind_matrix: RawMat4,
}

impl View for Bone {
    type V = BoneView;

    closed spec fn view(&self) -> BoneView {
        BoneView {
            name: self.name@,
            unk_01: self.unk_01@,
            parent: self.parent.0,
            children: self.children@,
            data: self.data@,
            bind_matrix: self.bind_matrix,
            inv_bind_matrix: self.inv_bind_matrix,
        }
    }
}

impl Bone {
    pub fn get_name(&self) -> (r: &str)
        ensures
            r@ == self@.name,
    {
        self.name.as_str()
    }
}

/// A skeleton: a version, a bone count, a value not understood yet, and the bones.
#[derive(Debug)]
pub struct Skeleton {
    pub version: u8,
    pub num_bones: u8,
    pub unk_01: u8,
    pub bones: Vec<Bone>,
}

pub struct SkeletonView {
    pub version: u8,
    pub num_bones: u8,
    pub unk_01: u8,
    pub bones: Seq<BoneView>,
}

impl View for Skeleton {
    type V = SkeletonView;

    open spec fn view(&self) -> SkeletonView {
        SkeletonView {
            version: self.version,
            num_bones: self.num_bones,
            unk_01: self.unk_01,
            bones: self.bones@.map_values(|b: Bone| b@),
        }
    }
}

pub open spec fn empty_skeleton() -> SkeletonView {
    SkeletonView { version: 0, num_bones: 0, unk_01: 0, bones: Seq::empty() }
}

impl Default for Skeleton {
    fn default() -> (r: Self)
        ensures
            r@ == empty_skeleton(),
    {
        let r = Skeleton { version: 0, num_bones: 0, unk_01: 0, bones: Vec::new() };
        assert(r@.bones =~= Seq::<BoneView>::empty());
        r
    }
}

pub open spec fn zeros(n: nat) -> Seq<u8> {
    Seq::new(n, |i: int| 0u8)
}

/// One bone record: up to four bytes, the parent byte (255 for none), up to 63 bytes and
/// two matrices. Its name and children come later.
pub open spec fn bone_at(s: Seq<u8>, p: int) -> Result<(BoneView, int), Seq<char>> {
    let p1 = p + partial_len(s, p, 4);
    if !avail(s, p1, 1) {
        Err(eof_message())
    } else {
        let p2 = p1 + 1 + partial_len(s, p1 + 1, 63);
        if !avail(s, p2, 128) {
            Err(eof_message())
        } else {
            Ok((BoneView {
                name: Seq::empty(),
                unk_01: fill_partial(zeros(4), s, p),
                parent: if s[p1] == 255 { None } else { Some(s[p1]) },
                children: Seq::empty(),
                data: fill_partial(zeros(63), s, p1 + 1),
                bind_matrix: mat4_at(s, p2),
                inv_bind_matrix: mat4_at(s, p2 + 64),
            }, p2 + 128))
        }
    }
}

pub open spec fn bone_step() -> Step<BoneView> {
    |s: Seq<u8>, p: int| bone_at(s, p)
}

fn read_bone(r: &mut ByteReader) -> (res: Result<Bone, LoadError>)
    ensures
        final(r).data() == old(r).data(),
        match bone_at(old(r).data(), old(r).at()) {
            Ok((b, e)) => res is Ok && res->Ok_0@ == b && res->Ok_0.children@.len() == 0
                && final(r).at() == e,
            Err(m) => res is Err && res->Err_0@ == err_view(m, unset_key()),
        },
{
    let mut unk_01 = zero_bytes::<4>();
    assert(unk_01@ =~= zeros(4));
    read_partial_into(r, &mut unk_01);
    let par = r.read_u8()?;
    let parent = if par == 255 {
        None
    } else {
        Some(par)
    };
    let mut data = zero_bytes::<63>();
    assert(data@ =~= zeros(63));
    read_partial_into(r, &mut data);
    let bind_matrix = read_mat4(r)?;
    let inv_bind_matrix = read_mat4(r)?;
    let b = Bone {
        name: String::new(),
        unk_01,
        parent: BoneParent(parent),
        children: Vec::new(),
        data,
        bind_matrix,
        inv_bind_matrix,
    };
    assert(b@.children =~= Seq::<u8>::empty());
    Ok(b)
}

/// The outcome of reading one bone name.
pub enum NameRead {
    Read(Seq<char>, int),
    Failed(Seq<char>),
    Panics,
}

/// A bone name: a length byte counting the terminator, the text, and the terminator. A
/// length of zero is an arithmetic underflow.
pub open spec fn name_at(s: Seq<u8>, p: int) -> NameRead {
    if !avail(s, p, 1) {
        NameRead::Failed(eof_message())
    } else {
        let n = s[p] as int;
        if n == 0 {
            NameRead::Panics
        } else if !avail(s, p + 1, n) {
            NameRead::Failed(eof_message())
        } else {
            match utf8_result(s.subrange(p + 1, p + n)) {
                Err(m) => NameRead::Failed(m),
                Ok(t) => NameRead::Read(t, p + 1 + n),
            }
        }
    }
}

pub enum NamesStop {
    Complete,
    Failed(Seq<char>),
    Panics,
}

/// Reading `k` names one after the other from `p`.
pub open spec fn names_run(s: Seq<u8>, p: int, k: nat) -> (Seq<Seq<char>>, int, NamesStop)
    decreases k,
{
    if k == 0 {
        (Seq::empty(), p, NamesStop::Complete)
    } else {
        let prev = names_run(s, p, (k - 1) as nat);
        if !(prev.2 is Complete) {
            prev
        } else {
            match name_at(s, prev.1) {
                NameRead::Read(t, q) => (prev.0.push(t), q, NamesStop::Complete),
                NameRead::Failed(m) => (prev.0, prev.1, NamesStop::Failed(m)),
                NameRead::Panics => (prev.0, prev.1, NamesStop::Panics),
            }
        }
    }
}

pub proof fn lemma_names_run_stops(s: Seq<u8>, p: int, i: nat, n: nat)
    requires
        i <= n,
        !(names_run(s, p, i).2 is Complete),
    ensures
        names_run(s, p, n) == names_run(s, p, i),
    decreases n - i,
{
    if i < n {
        lemma_names_run_stops(s, p, i, (n - 1) as nat);
    }
}

fn read_name(r: &mut ByteReader) -> (res: Result<String, LoadError>)
    requires
        !(name_at(old(r).data(), old(r).at()) is Panics),
    ensures
        final(r).data() == old(r).data(),
        match name_at(old(r).data(), old(r).at()) {
            NameRead::Read(t, e) => res is Ok && res->Ok_0@ == t && final(r).at() == e,
            NameRead::Failed(m) => res is Err && res->Err_0@ == err_view(m, unset_key()),
            NameRead::Panics => false,
        },
{
    let len = r.read_u8()?;
    let bytes = r.read_exact((len - 1) as usize)?;
    r.read_u8()?;
    decode_string(bytes)
}

/// The children of bone `j` among the first `upto` bones: those whose parent is `j`, in order.
pub open spec fn children_of(parents: Seq<Option<u8>>, j: int, upto: nat) -> Seq<u8>
    decreases upto,
{
    if upto == 0 {
        Seq::empty()
    } else {
        let prev = children_of(parents, j, (upto - 1) as nat);
        if parents[upto - 1] == Some(j as u8) && 0 <= j < 256 {
            prev.push((upto - 1) as u8)
        } else {
            prev
        }
    }
}

/// Some bone names a parent that is not one of the `n` bones.
pub open spec fn bad_parent(parents: Seq<Option<u8>>, n: nat) -> bool {
    exists|i: int| 0 <= i < n && (#[trigger] parents[i] matches Some(idx) && idx >= n)
}

pub open spec fn assemble_bones(raw: Seq<BoneView>, names: Seq<Seq<char>>, n: nat) -> Seq<BoneView> {
    let parents = raw.map_values(|b: BoneView| b.parent);
    Seq::new(n, |i: int| BoneView { name: names[i], children: children_of(parents, i, n), ..raw[i] })
}

/// Reads `n` bone records (with no names or children yet).
fn read_bone_records(cursor: &mut ByteReader, n: u8) -> (res: Result<Vec<Bone>, LoadError>)
    requires
        old(cursor).at() == 3,
    ensures
        final(cursor).data() == old(cursor).data(),
        ({
            let run = list_run(old(cursor).data(), 3, n as nat, bone_step());
            match run.2 {
                Some(m) => res is Err && res->Err_0@ == err_view(m, unset_key()),
                None => res is Ok && res->Ok_0@.map_values(|b: Bone| b@) == run.0 && res->Ok_0@.len() == n
                    && final(cursor).at() == run.1
                    && forall|j: int| 0 <= j < n ==> (#[trigger] res->Ok_0@[j]).children@.len() == 0,
            }
        }),
{
    let ghost s = cursor.data();
    let mut bones: Vec<Bone> = Vec::new();
    let mut k: u8 = 0;
    assert(bones@.map_values(|b: Bone| b@) =~= list_run(s, 3, 0, bone_step()).0);
    while k < n
        invariant
            cursor.data() == s,
            s == old(cursor).data(),
            k <= n,
            bones@.len() == k,
            list_run(s, 3, k as nat, bone_step()).2 is None,
            list_run(s, 3, k as nat, bone_step()).1 == cursor.at(),
            bones@.map_values(|b: Bone| b@) == list_run(s, 3, k as nat, bone_step()).0,
            forall|j: int| 0 <= j < k ==> (#[trigger] bones@[j]).children@.len() == 0,
        decreases n - k,
    {
        let ghost prev = list_run(s, 3, k as nat, bone_step());
        match read_bone(cursor) {
            Ok(b) => {
                let ghost before = bones@;
                let ghost bv = b@;
                bones.push(b);
                k = k + 1;
                assert(bones@.map_values(|b: Bone| b@) =~= before.map_values(|b: Bone| b@).push(bv));
                assert(forall|j: int| 0 <= j < k - 1 ==> bones@[j] == before[j]);
            },
            Err(e) => {
                proof {
                    lemma_list_run_stops(s, 3, (k + 1) as nat, n as nat, bone_step());
                }
                return Err(e);
            },
        }
    }
    Ok(bones)
}

/// Reads one name per bone and gives it to that bone.
fn read_bone_names(cursor: &mut ByteReader, bones: &mut Vec<Bone>) -> (res: Result<(), LoadError>)
    requires
        old(bones)@.len() <= 255,
        !(names_run(old(cursor).data(), old(cursor).at(), old(bones)@.len()).2 is Panics),
    ensures
        final(cursor).data() == old(cursor).data(),
        ({
            let run = names_run(old(cursor).data(), old(cursor).at(), old(bones)@.len());
            match run.2 {
                NamesStop::Failed(m) => res is Err && res->Err_0@ == err_view(m, unset_key()),
                NamesStop::Panics => false,
                NamesStop::Complete => res is Ok && final(bones)@.len() == old(bones)@.len()
                    && forall|j: int| 0 <= j < old(bones)@.len() ==> (#[trigger] final(bones)@[j])@
                        == (BoneView { name: run.0[j], ..old(bones)@[j]@ })
                    && forall|j: int| 0 <= j < old(bones)@.len() ==> (#[trigger] final(bones)@[j]).parent
                        == old(bones)@[j].parent
                    && forall|j: int| 0 <= j < old(bones)@.len() ==> (#[trigger] final(bones)@[j]).children@
                        == old(bones)@[j].children@,
            }
        }),
{
    let ghost s = cursor.data();
    let ghost pn = cursor.at();
    let n = bones.len();
    let mut i: usize = 0;
    while i < n
        invariant
            cursor.data() == s,
            s == old(cursor).data(),
            pn == old(cursor).at(),
            n == old(bones)@.len(),
            n <= 255,
            i <= n,
            bones@.len() == n,
            names_run(s, pn, i as nat).2 is Complete,
            names_run(s, pn, i as nat).1 == cursor.at(),
            names_run(s, pn, i as nat).0.len() == i,
            !(names_run(s, pn, n as nat).2 is Panics),
            forall|j: int| 0 <= j < i ==> (#[trigger] bones@[j])@ == (BoneView { name: names_run(s, pn, i as nat).0[j], ..old(bones)@[j]@ }),
            forall|j: int| i <= j < n ==> (#[trigger] bones@[j])@ == old(bones)@[j]@,
            forall|j: int| 0 <= j < n ==> (#[trigger] bones@[j]).parent == old(bones)@[j].parent,
            forall|j: int| 0 <= j < n ==> (#[trigger] bones@[j]).children@ == old(bones)@[j].children@,
        decreases n - i,
    {
        let ghost prev = names_run(s, pn, i as nat);
        proof {
            if name_at(s, prev.1) is Panics {
                assert(names_run(s, pn, (i + 1) as nat).2 is Panics);
                lemma_names_run_stops(s, pn, (i + 1) as nat, n as nat);
            }
        }
        match read_name(cursor) {
            Ok(name) => {
                bones[i].name = name;
                i = i + 1;
            },
            Err(e) => {
                proof {
                    lemma_names_run_stops(s, pn, (i + 1) as nat, n as nat);
                }
                return Err(e);
            },
        }
    }
    Ok(())
}

/// Gives each bone, as children, the bones whose parent it is.
fn link_children(bones: &mut Vec<Bone>, Ghost(parents): Ghost<Seq<Option<u8>>>)
    requires
        old(bones)@.len() <= 255,
        parents.len() == old(bones)@.len(),
        forall|j: int| 0 <= j < parents.len() ==> (#[trigger] old(bones)@[j]).parent.0 == parents[j],
        forall|j: int| 0 <= j < parents.len() ==> (#[trigger] old(bones)@[j]).children@.len() == 0,
        !bad_parent(parents, parents.len()),
    ensures
        final(bones)@.len() == old(bones)@.len(),
        forall|j: int| 0 <= j < parents.len() ==> (#[trigger] final(bones)@[j])@
            == (BoneView { children: children_of(parents, j, parents.len()), ..old(bones)@[j]@ }),
{
    let n = bones.len();
    let mut c: usize = 0;
    assert forall|j: int| 0 <= j < n implies (#[trigger] bones@[j])@ == (BoneView {
        children: children_of(parents, j, 0),
        ..old(bones)@[j]@
    }) by {
        assert(bones@[j].children@ =~= Seq::<u8>::empty());
    }
    while c < n
        invariant
            n == old(bones)@.len(),
            n <= 255,
            bones@.len() == n,
            parents.len() == n,
            !bad_parent(parents, n as nat),
            c <= n,
            forall|j: int| 0 <= j < n ==> (#[trigger] bones@[j]).parent.0 == parents[j],
            forall|j: int| 0 <= j < n ==> (#[trigger] bones@[j])@ == (BoneView { children: children_of(parents, j, c as nat), ..old(bones)@[j]@ }),
        decreases n - c,
    {
        if let Some(idx) = bones[c].parent.0 {
            assert(parents[c as int] matches Some(x) && x == idx);
            bones[idx as usize].children.push(c as u8);
        }
        c = c + 1;
    }
}

/// Version, bone count and a byte, each kept once read; the bone records; one name
/// per bone; then each bone's children are found from the parents. The bones replace
/// those there were only when all of it was read. A name length of zero, or a parent
/// that is not a bone, aborts the load.
/// The position after a partial read of up to `n` bytes at `p`.
fn after_partial(len: usize, p: usize, n: usize) -> (r: usize)
    requires
        p <= len,
    ensures
        r == p + partial_len(Seq::new(len as nat, |i: int| 0u8), p as int, n as int),
        r <= len,
{
    if p >= len {
        p
    } else if len - p >= n {
        p + n
    } else {
        len
    }
}

/// Whether loading `buf` as a skeleton aborts: a bone name of
/// length zero, or a parent that is not one of the bones, after everything else was read.
pub fn skeleton_load_panics(buf: &[u8]) -> (r: bool)
    ensures
        forall|v: SkeletonView| r == (skeleton_load(v, buf@) is Panics),
{
    let ghost s = buf@;
    let len = buf.len();
    if len < 3 {
        return false;
    }
    let n = buf[1];
    let mut parents: Vec<Option<u8>> = Vec::new();
    let mut p: usize = 3;
    let mut k: u8 = 0;
    assert(parents@ =~= list_run(s, 3, 0, bone_step()).0.map_values(|b: BoneView| b.parent));
    while k < n
        invariant
            s == buf@,
            len == s.len(),
            len >= 3,
            n == s[1],
            k <= n,
            p <= len,
            list_run(s, 3, k as nat, bone_step()).2 is None,
            list_run(s, 3, k as nat, bone_step()).1 == p,
            parents@.len() == k,
            parents@ == list_run(s, 3, k as nat, bone_step()).0.map_values(|b: BoneView| b.parent),
        decreases n - k,
    {
        let ghost prev = list_run(s, 3, k as nat, bone_step());
        assert(partial_len(Seq::new(len as nat, |i: int| 0u8), p as int, 4) == partial_len(s, p as int, 4));
        let p1 = after_partial(len, p, 4);
        if p1 >= len {
            proof {
                lemma_list_run_stops(s, 3, (k + 1) as nat, n as nat, bone_step());
            }
            return false;
        }
        let par = buf[p1];
        assert(partial_len(Seq::new(len as nat, |i: int| 0u8), p1 + 1, 63) == partial_len(s, p1 + 1, 63));
        let p2 = after_partial(len, p1 + 1, 63);
        if len - p2 < 128 {
            proof {
                lemma_list_run_stops(s, 3, (k + 1) as nat, n as nat, bone_step());
            }
            return false;
        }
        let ghost before = parents@;
        parents.push(if par == 255 { None } else { Some(par) });
        p = p2 + 128;
        k = k + 1;
        assert(parents@ =~= list_run(s, 3, k as nat, bone_step()).0.map_values(|b: BoneView| b.parent));
    }
    let ghost pn = p as int;
    let mut i: u8 = 0;
    while i < n
        invariant
            s == buf@,
            len == s.len(),
            len >= 3,
            n == s[1],
            i <= n,
            p <= len,
            list_run(s, 3, n as nat, bone_step()).2 is None,
            list_run(s, 3, n as nat, bone_step()).1 == pn,
            names_run(s, pn, i as nat).2 is Complete,
            names_run(s, pn, i as nat).1 == p,
            parents@.len() == n,
            parents@ == list_run(s, 3, n as nat, bone_step()).0.map_values(|b: BoneView| b.parent),
        decreases n - i,
    {
        if p >= len {
            proof {
                lemma_names_run_stops(s, pn, (i + 1) as nat, n as nat);
            }
            return false;
        }
        let nl = buf[p];
        if nl == 0 {
            proof {
                lemma_names_run_stops(s, pn, (i + 1) as nat, n as nat);
            }
            return true;
        }
        if len - p - 1 < nl as usize {
            proof {
                lemma_names_run_stops(s, pn, (i + 1) as nat, n as nat);
            }
            return false;
        }
        let bytes = copy_range(buf, p + 1, p + nl as usize);
        match decode_string(bytes) {
            Err(_) => {
                proof {
                    lemma_names_run_stops(s, pn, (i + 1) as nat, n as nat);
                }
                return false;
            },
            Ok(_) => {},
        }
        p = p + 1 + nl as usize;
        i = i + 1;
    }
    let mut c: usize = 0;
    while c < parents.len()
        invariant
            s == buf@,
            n == s[1],
            s.len() >= 3,
            parents@.len() == n,
            list_run(s, 3, n as nat, bone_step()).2 is None,
            list_run(s, 3, n as nat, bone_step()).1 == pn,
            names_run(s, pn, n as nat).2 is Complete,
            parents@ == list_run(s, 3, n as nat, bone_step()).0.map_values(|b: BoneView| b.parent),
            c <= n,
            forall|j: int| 0 <= j < c ==> !(#[trigger] parents@[j] matches Some(idx) && idx >= n),
        decreases parents@.len() - c,
    {
        match parents[c] {
            Some(idx) => {
                if idx >= n {
                    return true;
                }
            },
            None => {},
        }
        c = c + 1;
    }
    false
}

pub open spec fn skeleton_load(old: SkeletonView, s: Seq<u8>) -> Outcome<SkeletonView> {
    if s.len() < 1 {
        Outcome::Failed(old, eof_message())
    } else if s.len() < 2 {
        Outcome::Failed(SkeletonView { version: s[0], ..old }, eof_message())
    } else if s.len() < 3 {
        Outcome::Failed(SkeletonView { version: s[0], num_bones: s[1], ..old }, eof_message())
    } else {
        let n = s[1] as nat;
        let v0 = SkeletonView { version: s[0], num_bones: s[1], unk_01: s[2], ..old };
        let raw = list_run(s, 3, n, bone_step());
        match raw.2 {
            Some(m) => Outcome::Failed(v0, m),
            None => {
                let names = names_run(s, raw.1, n);
                match names.2 {
                    NamesStop::Failed(m) => Outcome::Failed(v0, m),
                    NamesStop::Panics => Outcome::Panics,
                    NamesStop::Complete => if bad_parent(raw.0.map_values(|b: BoneView| b.parent), n) {
                        Outcome::Panics
                    } else {
                        Outcome::Done(SkeletonView { bones: assemble_bones(raw.0, names.0, n), ..v0 })
                    },
                }
            },
        }
    }
    }

impl ArchetypeImpl for Skeleton {
    open spec fn load_spec(old: SkeletonView, s: Seq<u8>) -> Outcome<SkeletonView> {
        skeleton_load(old, s)
    }

    open spec fn unload_spec(old: SkeletonView) -> SkeletonView {
        empty_skeleton()
    }

    fn load_from_buf(&mut self, buf: &[u8]) -> (r: Result<(), LoadError>) {
        let ghost s = buf@;
        let mut cursor = ByteReader::new(buf);
        self.version = cursor.read_u8()?;
        self.num_bones = cursor.read_u8()?;
        self.unk_01 = cursor.read_u8()?;
        let n = self.num_bones;
        let mut bones = read_bone_records(&mut cursor, n)?;
        let ghost raw = bones@.map_values(|b: Bone| b@);
        proof {
            let names = names_run(s, cursor.at(), n as nat);
            if names.2 is Complete {
                assert(!bad_parent(raw.map_values(|b: BoneView| b.parent), n as nat));
            }
        }
        read_bone_names(&mut cursor, &mut bones)?;
        let ghost named = bones@.map_values(|b: Bone| b@);
        link_children(&mut bones, Ghost(raw.map_values(|b: BoneView| b.parent)));
        self.bones = bones;
        proof {
            let names = names_run(s, list_run(s, 3, n as nat, bone_step()).1, n as nat);
            assert(self@.bones =~= assemble_bones(raw, names.0, n as nat));
        }
        Ok(())
    }

    fn unload(&mut self) {
        *self = Skeleton::default()
    }
}

} // verus!

use vstd::prelude::*;
use vstd::string::{StringExecFns, StrSliceExecFns};
use crate::bytes::{ByteReader, avail, le_u32, le_u64, le_i32};
use crate::error::{LoadError, eof_message, err_view, unset_key};
use crate::text::{decimal_text, nul_string_at, read_nul_term_string};
use crate::objects::common::{
    ArchetypeImpl, Outcome, outcome_of, keyless, Step, list_run, lemma_list_run_stops, RawVec3,
    read_vec3, vec3_at, error_with_decimal,
};

verus! {

/// A named AI constant; the float and the vector are kept as 32-bit float bit patterns.
#[derive(Debug)]
pub enum ConstValue {
    Int(String, i32),
    Float(String, u32),
    Vec(String, RawVec3),
}

pub enum ConstValueView {
    Int(Seq<char>, i32),
    Float(Seq<char>, u32),
    Vec(Seq<char>, RawVec3),
}

impl View for ConstValue {
    type V = ConstValueView;

    open spec fn view(&self) -> ConstValueView {
        match self {
            ConstValue::Int(n, v) => ConstValueView::Int(n@, *v),
            ConstValue::Float(n, v) => ConstValueView::Float(n@, *v),
            ConstValue::Vec(n, v) => ConstValueView::Vec(n@, *v),
        }
    }
}

pub open spec fn const_name(c: ConstValueView) -> Seq<char> {
    match c {
        ConstValueView::Int(n, _) => n,
        ConstValueView::Float(n, _) => n,
        ConstValueView::Vec(n, _) => n,
    }
}

pub open spec fn const_with_name(c: ConstValueView, name: Seq<char>) -> ConstValueView {
    match c {
        ConstValueView::Int(_, v) => ConstValueView::Int(name, v),
        ConstValueView::Float(_, v) => ConstValueView::Float(name, v),
        ConstValueView::Vec(_, v) => ConstValueView::Vec(name, v),
    }
}

impl ConstValue {
    pub fn get_name(&self) -> (r: &String)
        ensures
            r@ == const_name(self@),
    {
        match self {
            ConstValue::Int(n, _) => n,
            ConstValue::Float(n, _) => n,
            ConstValue::Vec(n, _) => n,
        }
    }

    /// The same value under another name.
    pub fn with_name(&self, name: &str) -> (r: Self)
        ensures
            r@ == const_with_name(self@, name@),
    {
        let n = <String as StringExecFns>::from_str(name);
        match self {
            ConstValue::Int(_, v) => ConstValue::Int(n, *v),
            ConstValue::Float(_, v) => ConstValue::Float(n, *v),
            ConstValue::Vec(_, v) => ConstValue::Vec(n, *v),
        }
    }
}

/// A node of the constant tree: a name, sub-nodes and the constants filed under it.
#[derive(Debug)]
pub struct ConstTreeNode {
    name: String,
    pub nodes: Vec<ConstTreeNode>,
    pub values: Vec<ConstValue>,
}

pub struct ConstTreeView {
    pub name: Seq<char>,
    pub nodes: Seq<ConstTreeView>,
    pub values: Seq<ConstValueView>,
}

pub closed spec fn tree_view(n: ConstTreeNode) -> ConstTreeView
    decreases n,
{
    ConstTreeView {
        name: n.name@,
        nodes: Seq::new(n.nodes@.len(), |i: int| if 0 <= i < n.nodes@.len() {
            proof { broadcast use vstd::seq::axiom_seq_index_decreases; }
            tree_view(n.nodes@[i])
        } else {
            new_tree(Seq::empty())
        }),
        values: n.values@.map_values(|v: ConstValue| v@),
    }
}

impl View for ConstTreeNode {
    type V = ConstTreeView;

    closed spec fn view(&self) -> ConstTreeView {
        tree_view(*self)
    }
}

pub open spec fn new_tree(name: Seq<char>) -> ConstTreeView {
    ConstTreeView { name, nodes: Seq::empty(), values: Seq::empty() }
}

/// The index of the first sub-node at or after `i` with the name, or -1.
pub open spec fn find_node_from(nodes: Seq<ConstTreeView>, name: Seq<char>, i: int) -> int
    decreases nodes.len() - i,
{
    if i < 0 || i >= nodes.len() {
        -1
    } else if nodes[i].name == name {
        i
    } else {
        find_node_from(nodes, name, i + 1)
    }
}

pub proof fn lemma_find_node_from(nodes: Seq<ConstTreeView>, name: Seq<char>, i: int)
    requires
        0 <= i,
    ensures
        find_node_from(nodes, name, i) == -1 || (i <= find_node_from(nodes, name, i) < nodes.len()
            && nodes[find_node_from(nodes, name, i)].name == name),
        find_node_from(nodes, name, i) == -1 ==> forall|k: int| i <= k < nodes.len() ==> nodes[k].name != name,
    decreases nodes.len() - i,
{
    if i < nodes.len() && nodes[i].name != name {
        lemma_find_node_from(nodes, name, i + 1);
    }
}

/// Replacing a child node changes the view in that one place.
proof fn lemma_view_update(a: ConstTreeNode, b: ConstTreeNode, j: int, x: ConstTreeNode)
    requires
        0 <= j < a.nodes@.len(),
        b.name == a.name,
        b.values == a.values,
        b.nodes@ == a.nodes@.update(j, x),
    ensures
        b@ == (ConstTreeView { nodes: a@.nodes.update(j, x@), ..a@ }),
{
    assert(b@.nodes =~= a@.nodes.update(j, x@));
}

/// Adding a child node adds its view.
proof fn lemma_view_push(a: ConstTreeNode, b: ConstTreeNode, x: ConstTreeNode)
    requires
        b.name == a.name,
        b.values == a.values,
        b.nodes@ == a.nodes@.push(x),
    ensures
        b@ == (ConstTreeView { nodes: a@.nodes.push(x@), ..a@ }),
{
    assert(b@.nodes =~= a@.nodes.push(x@));
}

/// Files `v` under the path of node names, making the nodes that are missing (each new
/// node goes after its siblings).
pub open spec fn tree_insert(t: ConstTreeView, path: Seq<Seq<char>>, v: ConstValueView) -> ConstTreeView
    decreases path.len(),
{
    if path.len() == 0 {
        ConstTreeView { values: t.values.push(v), ..t }
    } else {
        let j = find_node_from(t.nodes, path[0], 0);
        if j >= 0 {
            ConstTreeView { nodes: t.nodes.update(j, tree_insert(t.nodes[j], path.drop_first(), v)), ..t }
        } else {
            ConstTreeView { nodes: t.nodes.push(tree_insert(new_tree(path[0]), path.drop_first(), v)), ..t }
        }
    }
}

/// Splitting at backslashes: the pieces completed among the first `n` characters, and
/// where the current piece starts.
pub open spec fn split_prefix(s: Seq<char>, n: nat) -> (Seq<Seq<char>>, int)
    decreases n,
{
    if n == 0 {
        (Seq::empty(), 0)
    } else {
        let prev = split_prefix(s, (n - 1) as nat);
        if s[n - 1] == '\\' {
            (prev.0.push(s.subrange(prev.1, n - 1)), n as int)
        } else {
            prev
        }
    }
}

/// The pieces of `s` between backslashes (one more than there are backslashes).
pub open spec fn split_backslash(s: Seq<char>) -> Seq<Seq<char>> {
    let p = split_prefix(s, s.len());
    p.0.push(s.subrange(p.1, s.len() as int))
}

/// Files a constant: its name is a path of node names and, last, its own name.
pub open spec fn insert_const(t: ConstTreeView, c: ConstValueView) -> ConstTreeView {
    let names = split_backslash(const_name(c));
    tree_insert(t, names.drop_last(), const_with_name(c, names.last()))
}

pub open spec fn insert_all(t: ConstTreeView, cs: Seq<ConstValueView>) -> ConstTreeView
    decreases cs.len(),
{
    if cs.len() == 0 {
        t
    } else {
        insert_const(insert_all(t, cs.drop_last()), cs.last())
    }
}

proof fn lemma_split_prefix_start(s: Seq<char>, n: nat)
    ensures
        0 <= split_prefix(s, n).1 <= n,
    decreases n,
{
    if n > 0 {
        lemma_split_prefix_start(s, (n - 1) as nat);
    }
}

/// Splits a name at its backslashes.
fn split_name(name: &str) -> (r: Vec<String>)
    ensures
        r@.map_values(|p: String| p@) == split_backslash(name@),
        r@.len() >= 1,
{
    let n = name.unicode_len();
    let mut parts: Vec<String> = Vec::new();
    let mut start: usize = 0;
    let mut i: usize = 0;
    while i < n
        invariant
            n == name@.len(),
            i <= n,
            start == split_prefix(name@, i as nat).1,
            start <= i,
            parts@.map_values(|p: String| p@) == split_prefix(name@, i as nat).0,
        decreases n - i,
    {
        let c = name.get_char(i);
        let ghost before = parts@.map_values(|p: String| p@);
        if c == '\\' {
            let seg = <String as StringExecFns>::from_str(name.substring_char(start, i));
            parts.push(seg);
            start = i + 1;
            assert(parts@.map_values(|p: String| p@) =~= before.push(name@.subrange(split_prefix(name@, i as nat).1, i as int)));
        }
        i = i + 1;
    }
    let ghost before = parts@.map_values(|p: String| p@);
    let last = <String as StringExecFns>::from_str(name.substring_char(start, n));
    parts.push(last);
    assert(parts@.map_values(|p: String| p@) =~= before.push(name@.subrange(start as int, n as int)));
    parts
}

impl Default for ConstTreeNode {
    fn default() -> (r: Self)
        ensures
            r@ == new_tree(Seq::empty()),
    {
        let r = ConstTreeNode { name: String::new(), nodes: Vec::new(), values: Vec::new() };
        assert(r@.nodes =~= Seq::<ConstTreeView>::empty());
        assert(r@.values =~= Seq::<ConstValueView>::empty());
        r
    }
}

impl ConstTreeNode {
    fn find_index(&self, key: &String) -> (r: Option<usize>)
        ensures
            match r {
                Some(j) => j == find_node_from(self@.nodes, key@, 0),
                None => find_node_from(self@.nodes, key@, 0) == -1,
            },
    {
        let mut i: usize = 0;
        while i < self.nodes.len()
            invariant
                i <= self.nodes@.len(),
                find_node_from(self@.nodes, key@, 0) == find_node_from(self@.nodes, key@, i as int),
            decreases self.nodes@.len() - i,
        {
            assert(self@.nodes[i as int] == self.nodes@[i as int]@);
            if self.nodes[i].name == *key {
                return Some(i);
            }
            i = i + 1;
        }
        None
    }

    /// The index of the sub-node with the name, added at the end when there is none.
    fn find_or_push(&mut self, key: &String) -> (j: usize)
        ensures
            find_node_from(old(self)@.nodes, key@, 0) >= 0 ==> j == find_node_from(old(self)@.nodes, key@, 0)
                && final(self)@ == old(self)@,
            find_node_from(old(self)@.nodes, key@, 0) == -1 ==> j == old(self)@.nodes.len()
                && final(self)@ == (ConstTreeView { nodes: old(self)@.nodes.push(new_tree(key@)), ..old(self)@ }),
            j < final(self).nodes@.len(),
            final(self).nodes@.len() == final(self)@.nodes.len(),
    {
        proof {
            lemma_find_node_from(self@.nodes, key@, 0);
        }
        match self.find_index(key) {
            Some(j) => j,
            None => {
                let ghost a = *self;
                let child = ConstTreeNode { name: key.clone(), nodes: Vec::new(), values: Vec::new() };
                assert(child@.nodes =~= Seq::<ConstTreeView>::empty());
                assert(child@.values =~= Seq::<ConstValueView>::empty());
                let j = self.nodes.len();
                self.nodes.push(child);
                proof {
                    lemma_view_push(a, *self, child);
                }
                j
            },
        }
    }

    /// Files `v` under the names `path[i..end]`, below this node.
    fn insert_at(&mut self, path: &Vec<String>, i: usize, end: usize, v: ConstValue)
        requires
            i <= end <= path@.len(),
        ensures
            final(self)@ == tree_insert(old(self)@, path@.map_values(|p: String| p@).subrange(i as int, end as int), v@),
        decreases end - i,
    {
        let ghost names = path@.map_values(|p: String| p@).subrange(i as int, end as int);
        if i == end {
            let ghost a = *self;
            self.values.push(v);
            assert(self@.nodes =~= a@.nodes);
            assert(self@.values =~= a@.values.push(v@));
        } else {
            let ghost a = *self;
            let j = self.find_or_push(&path[i]);
            let ghost b = *self;
            proof {
                lemma_find_node_from(a@.nodes, names[0], 0);
                assert(names.drop_first() =~= path@.map_values(|p: String| p@).subrange(i + 1, end as int));
            }
            assert(b@.nodes[j as int] == b.nodes@[j as int]@);
            self.nodes[j].insert_at(path, i + 1, end, v);
            proof {
                lemma_view_update(b, *self, j as int, self.nodes@[j as int]);
                let child = tree_insert(b@.nodes[j as int], names.drop_first(), v@);
                assert(self@ == (ConstTreeView { nodes: b@.nodes.update(j as int, child), ..b@ }));
                let f = find_node_from(a@.nodes, names[0], 0);
                if f >= 0 {
                    assert(self@ == tree_insert(a@, names, v@));
                } else {
                    assert(b@.nodes.update(j as int, child) =~= a@.nodes.push(child));
                    assert(self@ == tree_insert(a@, names, v@));
                }
            }
        }
    }

    /// Files a constant under the nodes its name names.
    pub fn insert_const(&mut self, c: &ConstValue)
        ensures
            final(self)@ == insert_const(old(self)@, c@),
    {
        let names = split_name(c.get_name().as_str());
        let last = names.len() - 1;
        let v = c.with_name(names[last].as_str());
        self.insert_at(&names, 0, last, v);
        assert(names@.map_values(|p: String| p@).subrange(0, last as int) =~= split_backslash(const_name(c@)).drop_last());
    }

    pub fn contains_node(&self, name: &str) -> (r: bool)
        ensures
            r == (find_node_from(self@.nodes, name@, 0) >= 0),
    {
        let key = <String as StringExecFns>::from_str(name);
        match self.find_index(&key) {
            Some(_) => true,
            None => false,
        }
    }

    /// The sub-node with the name, made (after its siblings) when there is none.
    pub fn get_or_insert_node(&mut self, name: &str) -> (r: &mut ConstTreeNode)
        ensures
            ({
                let f = find_node_from(old(self)@.nodes, name@, 0);
                let base = if f >= 0 {
                    old(self)@
                } else {
                    ConstTreeView { nodes: old(self)@.nodes.push(new_tree(name@)), ..old(self)@ }
                };
                let j = if f >= 0 { f } else { old(self)@.nodes.len() as int };
                (*r)@ == base.nodes[j] && final(self)@ == (ConstTreeView { nodes: base.nodes.update(j, (*final(r))@), ..base })
            }),
    {
        let key = <String as StringExecFns>::from_str(name);
        proof {
            lemma_find_node_from(self@.nodes, name@, 0);
        }
        let j = self.find_or_push(&key);
        let ghost a = *self;
        assert(a@.nodes[j as int] == a.nodes@[j as int]@);
        proof {
            assert forall|b: ConstTreeNode, x: ConstTreeNode|
                #![trigger tree_view(b), tree_view(x)]
                b.name == a.name && b.values == a.values
                && b.nodes@ == a.nodes@.update(j as int, x) implies tree_view(b) == (ConstTreeView {
                nodes: a@.nodes.update(j as int, x@),
                ..a@
            }) by {
                lemma_view_update(a, b, j as int, x);
            }
        }
        &mut self.nodes[j]
    }

    pub fn get_name(&self) -> (r: &str)
        ensures
            r@ == self@.name,
    {
        self.name.as_str()
    }

    pub fn get_sub_node_from_name(&mut self, name: &str) -> (r: Option<&mut ConstTreeNode>)
        ensures
            match r {
                Some(n) => {
                    let j = find_node_from(old(self)@.nodes, name@, 0);
                    0 <= j && (*n)@ == old(self)@.nodes[j]
                    && final(self)@ == (ConstTreeView { nodes: old(self)@.nodes.update(j, (*final(n))@), ..old(self)@ })
                },
                None => find_node_from(old(self)@.nodes, name@, 0) == -1 && final(self)@ == old(self)@,
            },
    {
        let key = <String as StringExecFns>::from_str(name);
        proof {
            lemma_find_node_from(self@.nodes, name@, 0);
        }
        match self.find_index(&key) {
            Some(j) => {
                let ghost a = *self;
                proof {
                    assert forall|b: ConstTreeNode, x: ConstTreeNode|
                        #![trigger tree_view(b), tree_view(x)]
                        b.name == a.name && b.values == a.values
                        && b.nodes@ == a.nodes@.update(j as int, x) implies tree_view(b) == (ConstTreeView {
                        nodes: a@.nodes.update(j as int, x@),
                        ..a@
                    }) by {
                        lemma_view_update(a, b, j as int, x);
                    }
                }
                Some(&mut self.nodes[j])
            },
            None => None,
        }
    }
}

/// The AI constants of a level, filed in a tree by their names.
#[derive(Debug)]
pub struct AIConstList {
    pub root_node: ConstTreeNode,
}

impl View for AIConstList {
    type V = ConstTreeView;

    open spec fn view(&self) -> ConstTreeView {
        self.root_node@
    }
}

impl Default for AIConstList {
    fn default() -> (r: Self)
        ensures
            r@ == new_tree(Seq::empty()),
    {
        AIConstList { root_node: ConstTreeNode::default() }
    }
}

/// The first eight bytes of an XML constant list.
pub open spec fn xml_magic() -> u64 {
    8391171954870665532
}

pub open spec fn xml_list_message() -> Seq<char> {
    "xml const lists are loaded separately"@
}

pub open spec fn unknown_const_message(t: u8) -> Seq<char> {
    "unknown ai const type "@ + decimal_text(t as int)
}

/// One binary constant: a type byte, a zero-terminated name and a value of that type.
pub open spec fn const_at(s: Seq<u8>, p: int) -> Result<(ConstValueView, int), Seq<char>> {
    if !avail(s, p, 1) {
        Err(eof_message())
    } else {
        let t = s[p];
        match nul_string_at(s, p + 1) {
            Err(m) => Err(m),
            Ok((name, q)) => if t == 1 {
                if !avail(s, q, 4) {
                    Err(eof_message())
                } else {
                    Ok((ConstValueView::Int(name, le_i32(s, q)), q + 4))
                }
            } else if t == 2 {
                if !avail(s, q, 4) {
                    Err(eof_message())
                } else {
                    Ok((ConstValueView::Float(name, le_u32(s, q)), q + 4))
                }
            } else if t == 3 {
                if !avail(s, q, 12) {
                    Err(eof_message())
                } else {
                    Ok((ConstValueView::Vec(name, vec3_at(s, q)), q + 12))
                }
            } else {
                Err(unknown_const_message(t))
            },
        }
    }
}

pub open spec fn const_step() -> Step<ConstValueView> {
    |s: Seq<u8>, p: int| const_at(s, p)
}

fn read_const(r: &mut ByteReader) -> (res: Result<ConstValue, LoadError>)
    ensures
        final(r).data() == old(r).data(),
        match const_at(old(r).data(), old(r).at()) {
            Ok((c, e)) => res is Ok && res->Ok_0@ == c && final(r).at() == e,
            Err(m) => res is Err && res->Err_0@ == err_view(m, unset_key()),
        },
{
    let typ = r.read_u8()?;
    let name = read_nul_term_string(r)?;
    if typ == 1 {
        Ok(ConstValue::Int(name, r.read_i32()?))
    } else if typ == 2 {
        Ok(ConstValue::Float(name, r.read_u32()?))
    } else if typ == 3 {
        Ok(ConstValue::Vec(name, read_vec3(r)?))
    } else {
        proof {
            reveal_strlit("unknown ai const type ");
        }
        Err(error_with_decimal("unknown ai const type ", typ as i128))
    }
}

impl AIConstList {
    /// The constants of the binary form: eight bytes skipped, a count and that many constants.
    fn load_binary_consts(buf: &[u8]) -> (r: Result<Vec<ConstValue>, LoadError>)
        requires
            buf@.len() >= 8,
        ensures
            buf@.len() < 12 ==> r is Err && r->Err_0@ == err_view(eof_message(), unset_key()),
            buf@.len() >= 12 ==> ({
                let run = list_run(buf@, 12, le_u32(buf@, 8) as nat, const_step());
                match run.2 {
                    Some(m) => r is Err && r->Err_0@ == err_view(m, unset_key()),
                    None => r is Ok && r->Ok_0@.map_values(|c: ConstValue| c@) == run.0,
                }
            }),
    {
        let ghost s = buf@;
        let mut cursor = ByteReader::new(buf);
        cursor.set_position(8);
        let num = cursor.read_u32()?;
        let mut v: Vec<ConstValue> = Vec::new();
        let mut k: u32 = 0;
        assert(v@.map_values(|c: ConstValue| c@) =~= list_run(s, 12, 0, const_step()).0);
        while k < num
            invariant
                cursor.data() == s,
                s == buf@,
                s.len() >= 12,
                num == le_u32(s, 8),
                k <= num,
                list_run(s, 12, k as nat, const_step()).2 is None,
                list_run(s, 12, k as nat, const_step()).1 == cursor.at(),
                v@.map_values(|c: ConstValue| c@) == list_run(s, 12, k as nat, const_step()).0,
            decreases num - k,
        {
            let ghost prev = list_run(s, 12, k as nat, const_step());
            match read_const(&mut cursor) {
                Ok(c) => {
                    let ghost before = v@.map_values(|c: ConstValue| c@);
                    let ghost cv = c@;
                    v.push(c);
                    k = k + 1;
                    assert(v@.map_values(|c: ConstValue| c@) =~= before.push(cv));
                },
                Err(e) => {
                    proof {
                        lemma_list_run_stops(s, 12, (k + 1) as nat, num as nat, const_step());
                    }
                    return Err(e);
                },
            }
        }
        Ok(v)
    }

    /// Files each constant, in order, into the tree.
    pub fn insert_consts(&mut self, consts: &Vec<ConstValue>)
        ensures
            final(self)@ == insert_all(old(self)@, consts@.map_values(|c: ConstValue| c@)),
    {
        let ghost cs = consts@.map_values(|c: ConstValue| c@);
        let mut k: usize = 0;
        assert(cs.subrange(0, 0) =~= Seq::<ConstValueView>::empty());
        while k < consts.len()
            invariant
                cs == consts@.map_values(|c: ConstValue| c@),
                k <= consts@.len(),
                self@ == insert_all(old(self)@, cs.subrange(0, k as int)),
            decreases consts@.len() - k,
        {
            self.root_node.insert_const(&consts[k]);
            assert(cs.subrange(0, k + 1).drop_last() =~= cs.subrange(0, k as int));
            k = k + 1;
        }
        assert(cs.subrange(0, consts@.len() as int) =~= cs);
    }
}

/// Fewer than eight bytes abort the load. The XML form (known by its first eight bytes)
/// fails here with a message that leaves the list to be finished from its XML events
/// (`Bigfile::finish_xml_const_list`, `AmortizedLoad::finish_xml_const_list`). The binary
/// form's constants are filed into the tree only when all of them were read.
pub open spec fn const_list_load(old: ConstTreeView, s: Seq<u8>) -> Outcome<ConstTreeView> {
    if s.len() < 8 {
        Outcome::Panics
    } else if le_u64(s, 0) == xml_magic() {
        Outcome::Failed(old, xml_list_message())
    } else if s.len() < 12 {
        Outcome::Failed(old, eof_message())
    } else {
        let run = list_run(s, 12, le_u32(s, 8) as nat, const_step());
        match run.2 {
            Some(m) => Outcome::Failed(old, m),
            None => Outcome::Done(insert_all(old, run.0)),
        }
    }
    }

impl ArchetypeImpl for AIConstList {
    open spec fn load_spec(old: ConstTreeView, s: Seq<u8>) -> Outcome<ConstTreeView> {
        const_list_load(old, s)
    }

    open spec fn unload_spec(old: ConstTreeView) -> ConstTreeView {
        new_tree(Seq::empty())
    }

    fn load_from_buf(&mut self, buf: &[u8]) -> (r: Result<(), LoadError>) {
        let mut cursor = ByteReader::new(buf);
        let magic = unwrap_magic(cursor.read_u64());
        if magic == 8391171954870665532 {
            proof {
                reveal_strlit("xml const lists are loaded separately");
            }
            return Err(LoadError::from_str_message("xml const lists are loaded separately"));
        }
        let consts = Self::load_binary_consts(buf)?;
        self.insert_consts(&consts);
        Ok(())
    }

    fn unload(&mut self) {
        *self = AIConstList::default()
    }
}

fn unwrap_magic(r: Result<u64, LoadError>) -> (v: u64)
    requires
        r is Ok,
    ensures
        r == Ok::<u64, LoadError>(v),
{
    match r {
        Ok(v) => v,
        Err(_) => 0,
    }
}

} // verus!

pub mod node_ids;

use vstd::prelude::*;
use vstd::string::StringExecFns;
use crate::bytes::{ByteReader, avail, le_u16, le_u32, partial_len, fill_partial, read_partial_into, seek_message, zero_bytes};
use crate::error::{LoadError, eof_message, err_view, unset_key};
use crate::text::{utf8_result, decode_string};
use crate::objects::common::{ArchetypeImpl, Outcome, outcome_of, keyless};
use crate::objects::shader::node_ids::{ShaderNodeId, ShaderNodeKind};
use crate::objects::shader::node_ids::node_id_loaders::{comment_at, load_eSID_Comment};
use vstd::set_lib::{set_int_range, lemma_int_range, lemma_map_size, lemma_len_subset};
use vstd::relations::injective_on;

verus! {

/// A node of a shader graph: its type name, what is read of it, and a word not understood yet.
#[derive(Debug)]
pub struct ShaderNode {
    id: String,
    pub node: ShaderNodeId,
    pub unk_01: u32,
}

pub struct ShaderNodeView {
    pub id: Seq<char>,
    pub node: ShaderNodeKind,
    pub unk_01: u32,
}

impl View for ShaderNode {
    type V = ShaderNodeView;

    closed spec fn view(&self) -> ShaderNodeView {
        ShaderNodeView { id: self.id@, node: self.node@, unk_01: self.unk_01 }
    }
}

impl ShaderNode {
    pub fn get_id(&self) -> (r: &str)
        ensures
            r@ == self@.id,
    {
        self.id.as_str()
    }
}

/// A graph of a visual shader: a header of six words and its nodes.
#[derive(Debug)]
pub struct ShaderGraph {
    pub unk_01: u32,
    pub unk_02: u32,
    pub unk_03: u32,
    pub unk_04: u32,
    pub num_nodes: u32,
    pub unk_06: u32,
    pub nodes: Vec<ShaderNode>,
}

pub struct ShaderGraphView {
    pub unk_01: u32,
    pub unk_02: u32,
    pub unk_03: u32,
    pub unk_04: u32,
    pub num_nodes: u32,
    pub unk_06: u32,
    pub nodes: Seq<ShaderNodeView>,
}

impl View for ShaderGraph {
    type V = ShaderGraphView;

    open spec fn view(&self) -> ShaderGraphView {
        ShaderGraphView {
            unk_01: self.unk_01,
            unk_02: self.unk_02,
            unk_03: self.unk_03,
            unk_04: self.unk_04,
            num_nodes: self.num_nodes,
            unk_06: self.unk_06,
            nodes: self.nodes@.map_values(|n: ShaderNode| n@),
        }
    }
}

/// A visual shader: a version, flags and its graphs.
#[derive(Debug)]
pub struct VisualShader {
    pub version: u16,
    pub flags: u16,
    pub graphs: Vec<ShaderGraph>,
}

pub struct VisualShaderView {
    pub version: u16,
    pub flags: u16,
    pub graphs: Seq<ShaderGraphView>,
}

impl View for VisualShader {
    type V = VisualShaderView;

    open spec fn view(&self) -> VisualShaderView {
        VisualShaderView {
            version: self.version,
            flags: self.flags,
            graphs: self.graphs@.map_values(|g: ShaderGraph| g@),
        }
    }
}

impl Default for VisualShader {
    fn default() -> (r: Self)
        ensures
            r@ == (VisualShaderView { version: 0, flags: 0, graphs: Seq::empty() }),
    {
        let r = VisualShader { version: 0, flags: 0, graphs: Vec::new() };
        assert(r@.graphs =~= Seq::<ShaderGraphView>::empty());
        r
    }
}

/// The outcome of a read at a position: the value and the position after it, a failure
/// with its message, or an abort.
pub enum Parse<T> {
    Read(T, int),
    Fail(Seq<char>),
    Panics,
}

/// Where a search for the next node ends.
pub enum ScanEnd {
    Found(int),
    NotFound(int),
    Panics,
}

pub open spec fn is_esid(b: Seq<u8>) -> bool {
    b.len() == 4 && b[0] == 0x65 && b[1] == 0x53 && b[2] == 0x49 && b[3] == 0x44
}

/// The search for the next node's "eSID" tag from `p`: read up to four bytes over `buf`;
/// on the tag, step back eight from after the read; otherwise step back three, and go on
/// while the read was full. A step back before the start is a panic.
pub open spec fn scan(s: Seq<u8>, p: int, buf: Seq<u8>) -> ScanEnd
    decreases s.len() - p,
{
    let k = partial_len(s, p, 4);
    let b = fill_partial(buf, s, p);
    if is_esid(b) {
        if p + k - 8 < 0 {
            ScanEnd::Panics
        } else {
            ScanEnd::Found(p + k - 8)
        }
    } else if p + k - 3 < 0 {
        ScanEnd::Panics
    } else if k != 4 {
        ScanEnd::NotFound(p + k - 3)
    } else {
        scan(s, p + 1, b)
    }
}

pub open spec fn zeros4() -> Seq<u8> {
    seq![0u8, 0, 0, 0]
}

pub open spec fn scan_pos(e: ScanEnd) -> int {
    match e {
        ScanEnd::Found(x) => x,
        ScanEnd::NotFound(x) => x,
        ScanEnd::Panics => 0,
    }
}

/// A node id: a length (more than 256 is a panic), then that many bytes read as far as the
/// data goes over zeros, as UTF-8.
pub open spec fn node_id_at(s: Seq<u8>, p: int) -> Parse<Seq<char>> {
    if !avail(s, p, 4) {
        Parse::Fail(eof_message())
    } else {
        let len = le_u32(s, p) as int;
        if len > 256 {
            Parse::Panics
        } else {
            match utf8_result(fill_partial(Seq::new(len as nat, |i: int| 0u8), s, p + 4)) {
                Err(m) => Parse::Fail(m),
                Ok(t) => Parse::Read(t, p + 4 + partial_len(s, p + 4, len)),
            }
        }
    }
}

pub open spec fn comment_id() -> Seq<char> {
    "eSID_Comment"@
}

/// A node: its id and a word; a comment's text is read, any other node is skipped by
/// searching for the next one.
pub open spec fn node_at(s: Seq<u8>, p: int) -> Parse<ShaderNodeView> {
    match node_id_at(s, p) {
        Parse::Panics => Parse::Panics,
        Parse::Fail(m) => Parse::Fail(m),
        Parse::Read(t, q) => if !avail(s, q, 4) {
            Parse::Fail(eof_message())
        } else if t == comment_id() {
            match comment_at(s, q + 4) {
                Ok((c, r)) => Parse::Read(ShaderNodeView { id: t, node: ShaderNodeKind::Comment(c), unk_01: le_u32(s, q) }, r),
                Err(m) => Parse::Fail(m),
            }
        } else {
            match scan(s, q + 4, zeros4()) {
                ScanEnd::Panics => Parse::Panics,
                e => Parse::Read(ShaderNodeView { id: t, node: ShaderNodeKind::Invalid, unk_01: le_u32(s, q) }, scan_pos(e)),
            }
        },
    }
}

pub enum RunStop {
    Complete,
    Failed(Seq<char>),
    Panics,
}

/// `n` nodes from `p`, each followed by a search for the next one.
pub open spec fn nodes_run(s: Seq<u8>, p: int, n: nat) -> (Seq<ShaderNodeView>, int, RunStop)
    decreases n,
{
    if n == 0 {
        (Seq::empty(), p, RunStop::Complete)
    } else {
        let prev = nodes_run(s, p, (n - 1) as nat);
        if !(prev.2 is Complete) {
            prev
        } else {
            match node_at(s, prev.1) {
                Parse::Fail(m) => (prev.0, prev.1, RunStop::Failed(m)),
                Parse::Panics => (prev.0, prev.1, RunStop::Panics),
                Parse::Read(v, q) => match scan(s, q, zeros4()) {
                    ScanEnd::Panics => (prev.0, prev.1, RunStop::Panics),
                    e => (prev.0.push(v), scan_pos(e), RunStop::Complete),
                },
            }
        }
    }
}

pub proof fn lemma_nodes_run_stops(s: Seq<u8>, p: int, i: nat, n: nat)
    requires
        i <= n,
        !(nodes_run(s, p, i).2 is Complete),
    ensures
        nodes_run(s, p, n) == nodes_run(s, p, i),
    decreases n - i,
{
    if i < n {
        lemma_nodes_run_stops(s, p, i, (n - 1) as nat);
    }
}

/// A graph: six words, then `num_nodes` nodes.
pub open spec fn graph_at(s: Seq<u8>, p: int) -> Parse<ShaderGraphView> {
    if !avail(s, p, 24) {
        Parse::Fail(eof_message())
    } else {
        let run = nodes_run(s, p + 24, le_u32(s, p + 16) as nat);
        match run.2 {
            RunStop::Failed(m) => Parse::Fail(m),
            RunStop::Panics => Parse::Panics,
            RunStop::Complete => Parse::Read(ShaderGraphView {
                unk_01: le_u32(s, p),
                unk_02: le_u32(s, p + 4),
                unk_03: le_u32(s, p + 8),
                unk_04: le_u32(s, p + 12),
                num_nodes: le_u32(s, p + 16),
                unk_06: le_u32(s, p + 20),
                nodes: run.0,
            }, run.1),
        }
    }
}

pub enum ShaderStop {
    Done,
    Failed(Seq<char>),
    Panics,
    OutOfFuel,
}

/// The graphs from `p`, at most `fuel` of them: after each graph, a search for the next
/// node; when one is found the next graph starts 24 bytes before it.
pub open spec fn graphs_run(s: Seq<u8>, p: int, fuel: nat) -> (Seq<ShaderGraphView>, ShaderStop)
    decreases fuel,
{
    if fuel == 0 {
        (Seq::empty(), ShaderStop::OutOfFuel)
    } else {
        match graph_at(s, p) {
            Parse::Fail(m) => (Seq::empty(), ShaderStop::Failed(m)),
            Parse::Panics => (Seq::empty(), ShaderStop::Panics),
            Parse::Read(g, q) => match scan(s, q, zeros4()) {
                ScanEnd::Panics => (seq![g], ShaderStop::Panics),
                ScanEnd::NotFound(_) => (seq![g], ShaderStop::Done),
                ScanEnd::Found(x) => if x - 24 < 0 {
                    (seq![g], ShaderStop::Failed(seek_message()))
                } else {
                    let rest = graphs_run(s, x - 24, (fuel - 1) as nat);
                    (seq![g] + rest.0, rest.1)
                },
            },
        }
    }
}

/// The graphs from `p` come to an end within some number of steps.
pub open spec fn graphs_end(s: Seq<u8>, p: int) -> bool {
    exists|f: nat| !(#[trigger] graphs_run(s, p, f).1 is OutOfFuel)
}

pub open spec fn graphs_fuel(s: Seq<u8>, p: int) -> nat {
    choose|f: nat| !(#[trigger] graphs_run(s, p, f).1 is OutOfFuel)
}

impl VisualShader {
    /// Searches for the next node's tag (see `scan`), leaving the reader where the search
    /// ends; whether a tag was found, or none where the search aborts.
    fn seek_to_next_node(rdr: &mut ByteReader) -> (found: Option<bool>)
        ensures
            final(rdr).data() == old(rdr).data(),
            match scan(old(rdr).data(), old(rdr).at(), zeros4()) {
                ScanEnd::Found(x) => found == Some(true) && final(rdr).at() == x,
                ScanEnd::NotFound(x) => found == Some(false) && final(rdr).at() == x,
                ScanEnd::Panics => found is None,
            },
    {
        let ghost s = rdr.data();
        let ghost p0 = rdr.at();
        let mut buf = zero_bytes::<4>();
        assert(buf@ =~= zeros4());
        loop
            invariant
                rdr.data() == s,
                s == old(rdr).data(),
                p0 == old(rdr).at(),
                buf@.len() == 4,
                scan(s, rdr.at(), buf@) == scan(s, p0, zeros4()),
            decreases s.len() - rdr.at(),
        {
            let at = rdr.position();
            read_partial_into(rdr, &mut buf);
            let k = rdr.position() - at;
            if buf[0] == 0x65 && buf[1] == 0x53 && buf[2] == 0x49 && buf[3] == 0x44 {
                return match rdr.seek_relative(-8) {
                    Ok(()) => Some(true),
                    Err(_) => None,
                };
            }
            match rdr.seek_relative(-3) {
                Ok(()) => {},
                Err(_) => {
                    return None;
                },
            }
            if k != 4 {
                return Some(false);
            }
        }
    }

    /// Reads a node id: a length and that many bytes, as UTF-8; none where the read
    /// aborts.
    fn read_node_id(rdr: &mut ByteReader) -> (r: Option<Result<String, LoadError>>)
        ensures
            final(rdr).data() == old(rdr).data(),
            match node_id_at(old(rdr).data(), old(rdr).at()) {
                Parse::Read(t, e) => r matches Some(Ok(x)) && x@ == t && final(rdr).at() == e,
                Parse::Fail(m) => r matches Some(Err(x)) && x@ == err_view(m, unset_key()),
                Parse::Panics => r is None,
            },
    {
        let ghost s = rdr.data();
        let len = match rdr.read_u32() {
            Ok(l) => l as usize,
            Err(e) => {
                return Some(Err(e));
            },
        };
        if len > 256 {
            return None;
        }
        let ghost p = rdr.at();
        let mut bytes = rdr.read_partial(len);
        let ghost got = bytes@;
        let mut i: usize = bytes.len();
        while i < len
            invariant
                got.len() <= i <= len,
                bytes@ == got + Seq::new((i - got.len()) as nat, |j: int| 0u8),
            decreases len - i,
        {
            bytes.push(0);
            i = i + 1;
            assert(bytes@ =~= got + Seq::new((i - got.len()) as nat, |j: int| 0u8));
        }
        assert(bytes@ =~= fill_partial(Seq::new(len as nat, |j: int| 0u8), s, p));
        Some(decode_string(bytes))
    }

    /// Reads a node (see `node_at`); none where the read aborts.
    fn read_node(rdr: &mut ByteReader) -> (r: Option<Result<ShaderNode, LoadError>>)
        ensures
            final(rdr).data() == old(rdr).data(),
            match node_at(old(rdr).data(), old(rdr).at()) {
                Parse::Read(v, e) => r matches Some(Ok(x)) && x@ == v && final(rdr).at() == e,
                Parse::Fail(m) => r matches Some(Err(x)) && x@ == err_view(m, unset_key()),
                Parse::Panics => r is None,
            },
    {
        let id = match Self::read_node_id(rdr) {
            None => {
                return None;
            },
            Some(Err(e)) => {
                return Some(Err(e));
            },
            Some(Ok(id)) => id,
        };
        let unk_01 = match rdr.read_u32() {
            Ok(u) => u,
            Err(e) => {
                return Some(Err(e));
            },
        };
        let comment = <String as StringExecFns>::from_str("eSID_Comment");
        proof {
            reveal_strlit("eSID_Comment");
        }
        if id == comment {
            let node = match load_eSID_Comment(rdr) {
                Ok(c) => ShaderNodeId::eSID_Comment(c),
                Err(e) => {
                    return Some(Err(e.into_load_error()));
                },
            };
            Some(Ok(ShaderNode { id, node, unk_01 }))
        } else {
            match Self::seek_to_next_node(rdr) {
                None => None,
                Some(_) => Some(Ok(ShaderNode { id, node: ShaderNodeId::Invalid, unk_01 })),
            }
        }
    }

    /// Reads a graph (see `graph_at`); none where the read aborts.
    fn read_graph(rdr: &mut ByteReader) -> (r: Option<Result<ShaderGraph, LoadError>>)
        ensures
            final(rdr).data() == old(rdr).data(),
            match graph_at(old(rdr).data(), old(rdr).at()) {
                Parse::Read(g, e) => r matches Some(Ok(x)) && x@ == g && final(rdr).at() == e,
                Parse::Fail(m) => r matches Some(Err(x)) && x@ == err_view(m, unset_key()),
                Parse::Panics => r is None,
            },
    {
        let ghost s = rdr.data();
        let ghost p0 = rdr.at();
        let hdr = Self::read_graph_header(rdr);
        let (unk_01, unk_02, unk_03, unk_04, num_nodes, unk_06) = match hdr {
            Ok(h) => h,
            Err(e) => {
                return Some(Err(e));
            },
        };
        let ghost p = rdr.at();
        let mut nodes: Vec<ShaderNode> = Vec::new();
        let mut i: u32 = 0;
        assert(nodes@.map_values(|n: ShaderNode| n@) =~= nodes_run(s, p, 0).0);
        while i < num_nodes
            invariant
                rdr.data() == s,
                s == old(rdr).data(),
                avail(s, p0, 24),
                p0 == old(rdr).at(),
                p == p0 + 24,
                num_nodes == le_u32(s, p0 + 16),
                i <= num_nodes,
                nodes_run(s, p, i as nat).2 is Complete,
                nodes_run(s, p, i as nat).1 == rdr.at(),
                nodes@.map_values(|n: ShaderNode| n@) == nodes_run(s, p, i as nat).0,
            decreases num_nodes - i,
        {
            let ghost prev = nodes_run(s, p, i as nat);
            match Self::read_node(rdr) {
                Some(Ok(n)) => {
                    let ghost before = nodes@.map_values(|n: ShaderNode| n@);
                    let ghost nv = n@;
                    let ghost q = rdr.at();
                    match Self::seek_to_next_node(rdr) {
                        None => {
                            proof {
                                lemma_nodes_run_stops(s, p, (i + 1) as nat, num_nodes as nat);
                            }
                            return None;
                        },
                        Some(_) => {},
                    }
                    nodes.push(n);
                    i = i + 1;
                    assert(nodes@.map_values(|n: ShaderNode| n@) =~= before.push(nv));
                },
                Some(Err(e)) => {
                    proof {
                        lemma_nodes_run_stops(s, p, (i + 1) as nat, num_nodes as nat);
                    }
                    return Some(Err(e));
                },
                None => {
                    proof {
                        lemma_nodes_run_stops(s, p, (i + 1) as nat, num_nodes as nat);
                    }
                    return None;
                },
            }
        }
        Some(Ok(ShaderGraph { unk_01, unk_02, unk_03, unk_04, num_nodes, unk_06, nodes }))
    }

    /// The six header words of a graph.
    fn read_graph_header(rdr: &mut ByteReader) -> (r: Result<(u32, u32, u32, u32, u32, u32), LoadError>)
        ensures
            final(rdr).data() == old(rdr).data(),
            avail(old(rdr).data(), old(rdr).at(), 24) ==> ({
                let s = old(rdr).data();
                let p = old(rdr).at();
                r == Ok::<(u32, u32, u32, u32, u32, u32), LoadError>((le_u32(s, p), le_u32(s, p + 4), le_u32(s, p + 8),
                    le_u32(s, p + 12), le_u32(s, p + 16), le_u32(s, p + 20))) && final(rdr).at() == p + 24
            }),
            !avail(old(rdr).data(), old(rdr).at(), 24) ==> r is Err && r->Err_0@ == err_view(eof_message(), unset_key()),
    {
        let a = rdr.read_u32()?;
        let b = rdr.read_u32()?;
        let c = rdr.read_u32()?;
        let d = rdr.read_u32()?;
        let e = rdr.read_u32()?;
        let f = rdr.read_u32()?;
        Ok((a, b, c, d, e, f))
    }
}

/// Whether loading `buf` as a visual shader aborts or never
/// ends. The graphs are followed for as many steps as the buffer has bytes: each graph
/// that is read lies inside the buffer, so a run that takes that many steps meets one
/// position twice and goes round for ever.
pub fn shader_load_panics(buf: &[u8]) -> (r: bool)
    ensures
        forall|v: VisualShaderView| r == (#[trigger] visual_shader_load(v, buf@) is Panics),
{
    let ghost s = buf@;
    if buf.len() < 4 {
        return false;
    }
    let mut cursor = ByteReader::new(buf);
    cursor.set_position(68);
    let bound = buf.len();
    let mut steps: usize = 0;
    while steps < bound
        invariant
            cursor.data() == s,
            s == buf@,
            s.len() >= 4,
            steps <= bound,
            bound == s.len(),
            graphs_advance(s, 68, steps as nat) == Some(cursor.at()),
            forall|i: int| 0 <= i < steps ==> (#[trigger] graphs_advance(s, 68, i as nat)) is Some
                && avail(s, graphs_advance(s, 68, i as nat)->0, 24),
        decreases bound - steps,
    {
        let ghost p = cursor.at();
        proof {
            lemma_graphs_advance(s, 68, steps as nat, p, 1);
        }
        match VisualShader::read_graph(&mut cursor) {
            None => {
                proof {
                    lemma_graphs_run_fuel(s, 68, (steps + 1) as nat);
                }
                return true;
            },
            Some(Err(_)) => {
                proof {
                    lemma_graphs_run_fuel(s, 68, (steps + 1) as nat);
                }
                return false;
            },
            Some(Ok(_)) => {},
        }
        proof {
            assert(avail(s, p, 24));
        }
        match VisualShader::seek_to_next_node(&mut cursor) {
            None => {
                proof {
                    lemma_graphs_run_fuel(s, 68, (steps + 1) as nat);
                }
                return true;
            },
            Some(false) => {
                proof {
                    lemma_graphs_run_fuel(s, 68, (steps + 1) as nat);
                }
                return false;
            },
            Some(true) => {},
        }
        match cursor.seek_relative(-24) {
            Err(_) => {
                proof {
                    lemma_graphs_run_fuel(s, 68, (steps + 1) as nat);
                }
                return false;
            },
            Ok(()) => {},
        }
        proof {
            assert forall|i: int| 0 <= i < steps + 1 implies (#[trigger] graphs_advance(s, 68, i as nat)) is Some
                && avail(s, graphs_advance(s, 68, i as nat)->0, 24) by {
                if i == steps {
                    assert(graphs_advance(s, 68, i as nat) == Some(p));
                }
            }
        }
        steps = steps + 1;
    }
    proof {
        lemma_pigeon_never_ends(s, 68, bound as nat, bound - 23);
    }
    true
}

/// Stepping `i` times and then `d` times is stepping `i + d` times.
proof fn lemma_advance_compose(s: Seq<u8>, p: int, i: nat, q: int, d: nat)
    requires
        graphs_advance(s, p, i) == Some(q),
    ensures
        graphs_advance(s, q, d) == graphs_advance(s, p, i + d),
    decreases d,
{
    if d > 0 {
        lemma_advance_compose(s, p, i, q, (d - 1) as nat);
        assert((i + d - 1) as nat == i + (d - 1) as nat);
    }
}

/// The graphs go on for fewer steps when they go on for more.
proof fn lemma_advance_prefix(s: Seq<u8>, p: int, a: nat, b: nat)
    requires
        a <= b,
        graphs_advance(s, p, b) is Some,
    ensures
        graphs_advance(s, p, a) is Some,
    decreases b,
{
    if a < b {
        lemma_advance_prefix(s, p, a, (b - 1) as nat);
    }
}

/// Graphs that go on for `k` steps have not ended within `k` steps.
proof fn lemma_advance_runs(s: Seq<u8>, p: int, k: nat)
    requires
        graphs_advance(s, p, k) is Some,
    ensures
        graphs_run(s, p, k).1 is OutOfFuel,
{
    lemma_graphs_advance(s, p, k, graphs_advance(s, p, k)->0, 0);
}

/// Graphs that come back to where they started never end.
proof fn lemma_cycle_runs_forever(s: Seq<u8>, p: int, d: nat, f: nat)
    requires
        d > 0,
        graphs_advance(s, p, d) == Some(p),
    ensures
        graphs_run(s, p, f).1 is OutOfFuel,
    decreases f,
{
    if f < d {
        lemma_advance_prefix(s, p, f, d);
        lemma_advance_runs(s, p, f);
    } else {
        lemma_graphs_advance(s, p, d, p, (f - d) as nat);
        assert(d + (f - d) as nat == f);
        lemma_cycle_runs_forever(s, p, d, (f - d) as nat);
    }
}

/// Graphs that go on for `n` steps, each at a position below `m < n`, meet one position
/// twice, and so never end.
proof fn lemma_pigeon_never_ends(s: Seq<u8>, p: int, n: nat, m: int)
    requires
        0 < n,
        m < n,
        forall|i: int| 0 <= i < n ==> (#[trigger] graphs_advance(s, p, i as nat)) is Some
            && 0 <= graphs_advance(s, p, i as nat)->0 < m,
    ensures
        !graphs_end(s, p),
{
    let zero: int = 0;
    assert(graphs_advance(s, p, zero as nat) is Some && 0 <= graphs_advance(s, p, zero as nat)->0 < m);
    let f = |i: int| graphs_advance(s, p, i as nat)->0;
    let x = set_int_range(0, n as int);
    lemma_int_range(0, n as int);
    lemma_int_range(0, m);
    let y = x.map(f);
    if injective_on(f, x) {
        lemma_map_size(x, y, f);
        assert(y.subset_of(set_int_range(0, m))) by {
            assert forall|v: int| y.contains(v) implies set_int_range(0, m).contains(v) by {
                let i = choose|i: int| x.contains(i) && f(i) == v;
                assert(graphs_advance(s, p, i as nat) is Some);
            }
        }
        lemma_len_subset(y, set_int_range(0, m));
        assert(false);
    } else {
        let (i, j) = choose|i: int, j: int| x.contains(i) && x.contains(j) && #[trigger] f(i) == #[trigger] f(j) && i != j;
        let a: nat = if i < j { i as nat } else { j as nat };
        let b: nat = if i < j { j as nat } else { i as nat };
        assert(graphs_advance(s, p, a) is Some);
        assert(graphs_advance(s, p, b) is Some);
        let q = graphs_advance(s, p, a)->0;
        assert(f(a as int) == q);
        assert(f(b as int) == q);
        lemma_advance_compose(s, p, a, q, (b - a) as nat);
        assert(a + (b - a) as nat == b);
        assert forall|fuel: nat| (#[trigger] graphs_run(s, p, fuel)).1 is OutOfFuel by {
            if fuel <= a {
                lemma_advance_prefix(s, p, fuel, a);
                lemma_advance_runs(s, p, fuel);
            } else {
                lemma_graphs_advance(s, p, a, q, (fuel - a) as nat);
                assert(a + (fuel - a) as nat == fuel);
                lemma_cycle_runs_forever(s, q, (b - a) as nat, (fuel - a) as nat);
            }
        }
    }
}

/// Where the next graph starts after the one at `p`, when the graphs go on.
pub open spec fn graphs_next(s: Seq<u8>, p: int) -> Option<int> {
    match graph_at(s, p) {
        Parse::Read(_, q) => match scan(s, q, zeros4()) {
            ScanEnd::Found(x) => if x - 24 >= 0 { Some(x - 24) } else { None },
            _ => None,
        },
        _ => None,
    }
}

/// Where the graph after `k` steps from `p` starts, when the graphs go on that long.
pub open spec fn graphs_advance(s: Seq<u8>, p: int, k: nat) -> Option<int>
    decreases k,
{
    if k == 0 {
        Some(p)
    } else {
        match graphs_advance(s, p, (k - 1) as nat) {
            Some(q) => graphs_next(s, q),
            None => None,
        }
    }
}

/// After `k` steps the graphs from `p0` end as those from the position reached do.
pub proof fn lemma_graphs_advance(s: Seq<u8>, p0: int, k: nat, p: int, f: nat)
    requires
        graphs_advance(s, p0, k) == Some(p),
    ensures
        graphs_run(s, p0, k + f).1 == graphs_run(s, p, f).1,
    decreases k,
{
    if k > 0 {
        let q = graphs_advance(s, p0, (k - 1) as nat)->0;
        lemma_graphs_advance(s, p0, (k - 1) as nat, q, f + 1);
        assert((k - 1) + (f + 1) == k + f);
    }
}

/// Once the graphs end within some fuel, the load that `graphs_fuel` picks gives the same.
pub proof fn lemma_graphs_run_fuel(s: Seq<u8>, p: int, f: nat)
    requires
        !(graphs_run(s, p, f).1 is OutOfFuel),
    ensures
        graphs_end(s, p),
        graphs_run(s, p, graphs_fuel(s, p)) == graphs_run(s, p, f),
{
    assert(graphs_end(s, p));
    lemma_graphs_run_same(s, p, f, graphs_fuel(s, p));
}

/// Two fuels that both let the graphs end give the same graphs.
pub proof fn lemma_graphs_run_same(s: Seq<u8>, p: int, f: nat, g: nat)
    requires
        !(graphs_run(s, p, f).1 is OutOfFuel),
        !(graphs_run(s, p, g).1 is OutOfFuel),
    ensures
        graphs_run(s, p, f) == graphs_run(s, p, g),
    decreases f,
{
    if f > 0 && g > 0 {
        match graph_at(s, p) {
            Parse::Read(gr, q) => match scan(s, q, zeros4()) {
                ScanEnd::Found(x) => if x - 24 >= 0 {
                    lemma_graphs_run_same(s, x - 24, (f - 1) as nat, (g - 1) as nat);
                },
                _ => {},
            },
            _ => {},
        }
    }
}

/// A version and flags, each kept once read; then, 64 bytes on, graphs one after the
/// other (see `graphs_run`), appended to those there were; the graphs read before a
/// failure stay. Graphs that never come to an end stand with the panics.
pub open spec fn visual_shader_load(old: VisualShaderView, s: Seq<u8>) -> Outcome<VisualShaderView> {
    if s.len() < 2 {
        Outcome::Failed(old, eof_message())
    } else if s.len() < 4 {
        Outcome::Failed(VisualShaderView { version: le_u16(s, 0), ..old }, eof_message())
    } else if !graphs_end(s, 68) {
        Outcome::Panics
    } else {
        let r = graphs_run(s, 68, graphs_fuel(s, 68));
        let v = VisualShaderView { version: le_u16(s, 0), flags: le_u16(s, 2), graphs: old.graphs + r.0 };
        match r.1 {
            ShaderStop::Done => Outcome::Done(v),
            ShaderStop::Failed(m) => Outcome::Failed(v, m),
            _ => Outcome::Panics,
        }
    }
    }

impl ArchetypeImpl for VisualShader {
    open spec fn load_spec(old: VisualShaderView, s: Seq<u8>) -> Outcome<VisualShaderView> {
        visual_shader_load(old, s)
    }

    open spec fn unload_spec(old: VisualShaderView) -> VisualShaderView {
        VisualShaderView { graphs: Seq::empty(), ..old }
    }

    #[verifier::rlimit(50)]
    fn load_from_buf(&mut self, buf: &[u8]) -> (r: Result<(), LoadError>) {
        let ghost s = buf@;
        let ghost old_v = self@;
        let mut cursor = ByteReader::new(buf);
        self.version = cursor.read_u16()?;
        self.flags = cursor.read_u16()?;
        let _ = cursor.seek_relative(64);
        let ghost fuel = graphs_fuel(s, 68);
        let ghost total = graphs_run(s, 68, fuel);
        let ghost mut fl: nat = fuel;
        let ghost mut prefix: Seq<ShaderGraphView> = Seq::empty();
        assert(total.0 =~= prefix + graphs_run(s, cursor.at(), fl).0);
        loop
            invariant
                cursor.data() == s,
                s == buf@,
                old_v == old(self)@,
                self.version == le_u16(s, 0),
                self.flags == le_u16(s, 2),
                total == graphs_run(s, 68, fuel),
                fuel == graphs_fuel(s, 68),
                s.len() >= 4,
                graphs_end(s, 68),
                self@.graphs == old_v.graphs + prefix,
                total.0 == prefix + graphs_run(s, cursor.at(), fl).0,
                total.1 == graphs_run(s, cursor.at(), fl).1,
                !(total.1 is OutOfFuel),
                !(total.1 is Panics),
            decreases fl,
        {
            let ghost cur = graphs_run(s, cursor.at(), fl);
            let ghost before = self@.graphs;
            match Self::read_graph(&mut cursor) {
                Some(Ok(g)) => {
                    let ghost gv = g@;
                    self.graphs.push(g);
                    assert(self@.graphs =~= before.push(gv));
                    let found = Self::seek_to_next_node(&mut cursor);
                    proof {
                        prefix = prefix.push(gv);
                        assert(self@.graphs =~= old_v.graphs + prefix);
                    }
                    match found {
                        Some(true) => {},
                        Some(false) => {
                            assert(cur.0 =~= seq![gv]);
                            assert(total.0 =~= prefix);
                            assert(total.1 is Done);
                            return Ok(());
                        },
                        None => {
                            return Ok(());
                        },
                    }
                    match cursor.seek_relative(-24) {
                        Ok(()) => {
                            proof {
                                assert(cur.0 =~= seq![gv] + graphs_run(s, cursor.at(), (fl - 1) as nat).0);
                                assert(total.0 =~= prefix + graphs_run(s, cursor.at(), (fl - 1) as nat).0);
                                fl = (fl - 1) as nat;
                            }
                        },
                        Err(e) => {
                            assert(total.0 =~= prefix);
                            return Err(e);
                        },
                    }
                },
                Some(Err(e)) => {
                    assert(total.0 =~= prefix);
                    return Err(e);
                },
                None => {
                    return Ok(());
                },
            }
        }
    }

    fn unload(&mut self) {
        self.graphs.clear();
        assert(self@.graphs =~= Seq::<ShaderGraphView>::empty());
    }
}

} // verus!

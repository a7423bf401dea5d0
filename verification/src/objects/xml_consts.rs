use vstd::prelude::*;
use vstd::string::StringExecFns;
use crate::objects::ai_const::{AIConstList, ConstValue, ConstValueView};
use crate::objects::common::RawVec3;
use crate::error::{YetiIOError, err_view, unset_key};

verus! {

/// An event of an XML document as xml-rs gives it, reduced to what the constant lists use:
/// an element's start with the values of its attributes, a run of text, anything else.
pub enum XmlRawEvent {
    Start(Vec<String>),
    Text(String),
    Other,
}

pub enum XmlRawEventView {
    Start(Seq<Seq<char>>),
    Text(Seq<char>),
    Other,
}

impl View for XmlRawEvent {
    type V = XmlRawEventView;

    open spec fn view(&self) -> XmlRawEventView {
        match self {
            XmlRawEvent::Start(v) => XmlRawEventView::Start(v@.map_values(|s: String| s@)),
            XmlRawEvent::Text(s) => XmlRawEventView::Text(s@),
            XmlRawEvent::Other => XmlRawEventView::Other,
        }
    }
}

/// The events xml-rs reads from the bytes of a document, in order, up to its end or up to
/// the first error, with the text of that error where there is one.
pub uninterp spec fn xml_parse(bytes: Seq<u8>) -> (Seq<XmlRawEventView>, Option<Seq<char>>);

/// xml-rs's `EventReader` over the bytes, iterated to the end: each start of an element
/// becomes its attribute values, each run of text its text, any other event `Other`; the
/// first error stops the reading and gives its `Display` text, after the events read before
/// it. The result is named, not stated.
#[verifier::external_body]
fn xml_read_events(buf: &[u8]) -> (r: (Vec<XmlRawEvent>, Option<String>))
    ensures
        xml_parse(buf@) == (r.0@.map_values(|e: XmlRawEvent| e@), match r.1 {
            Some(m) => Some(m@),
            None => None::<Seq<char>>,
        }),
{
    let mut out = Vec::new();
    for ev in xml::reader::EventReader::new(buf) {
        match ev {
            Ok(xml::reader::XmlEvent::StartElement { attributes, .. }) => {
                out.push(XmlRawEvent::Start(attributes.into_iter().map(|a| a.value).collect()))
            },
            Ok(xml::reader::XmlEvent::Characters(s)) => out.push(XmlRawEvent::Text(s)),
            Ok(_) => out.push(XmlRawEvent::Other),
            Err(e) => return (out, Some(e.to_string())),
        }
    }
    (out, None)
}

/// An ASCII decimal digit.
pub open spec fn is_digit(c: char) -> bool {
    48 <= c as u32 <= 57
}

/// The value of a run of decimal digits, most significant first.
pub open spec fn digits_value(s: Seq<char>) -> int
    decreases s.len(),
{
    if s.len() == 0 {
        0
    } else {
        10 * digits_value(s.drop_last()) + (s.last() as u32 - 48)
    }
}

/// Where the digits of a text start: after a leading `-` or `+`.
pub open spec fn digits_start(s: Seq<char>) -> int {
    if s.len() > 0 && (s[0] == '-' || s[0] == '+') {
        1
    } else {
        0
    }
}

/// The integer that std's `str::parse::<i32>` reads from a text, as its documentation
/// gives it: an optional `-` or `+`, then one or more ASCII digits, whose value (negated
/// after a `-`) lies in the range of `i32`; anything else reads as none.
pub open spec fn i32_reading(s: Seq<char>) -> Option<i32> {
    let d = s.subrange(digits_start(s), s.len() as int);
    let v = if digits_start(s) == 1 && s[0] == '-' { -digits_value(d) } else { digits_value(d) };
    if d.len() > 0 && (forall|i: int| 0 <= i < d.len() ==> is_digit(#[trigger] d[i])) && i32::MIN <= v <= i32::MAX {
        Some(v as i32)
    } else {
        None
    }
}

proof fn lemma_digits_grow(s: Seq<char>, j: int)
    requires
        0 <= j <= s.len(),
        forall|i: int| 0 <= i < s.len() ==> is_digit(#[trigger] s[i]),
    ensures
        0 <= digits_value(s.subrange(0, j)) <= digits_value(s),
    decreases s.len(),
{
    if j < s.len() {
        let t = s.drop_last();
        assert(t.subrange(0, j) =~= s.subrange(0, j));
        lemma_digits_grow(t, j);
        lemma_digits_grow(t, t.len() as int);
        assert(t.subrange(0, t.len() as int) =~= t);
    } else {
        assert(s.subrange(0, j) =~= s);
        if s.len() > 0 {
            let t = s.drop_last();
            lemma_digits_grow(t, t.len() as int);
            assert(t.subrange(0, t.len() as int) =~= t);
        }
    }
}

/// std's `str::parse::<i32>`, with its error dropped, read digit by digit.
fn parse_i32(s: &str) -> (r: Option<i32>)
    ensures
        r == i32_reading(s@),
{
    let n = s.unicode_len();
    if n == 0 {
        return None;
    }
    let c0 = s.get_char(0);
    let neg = c0 == '-';
    let start: usize = if c0 == '-' || c0 == '+' { 1 } else { 0 };
    if start == n {
        return None;
    }
    let ghost d = s@.subrange(start as int, n as int);
    assert(start as int == digits_start(s@));
    let mut acc: i64 = 0;
    let mut j: usize = start;
    while j < n
        invariant
            start <= j <= n,
            n == s@.len(),
            d == s@.subrange(start as int, n as int),
            start as int == digits_start(s@),
            0 <= acc <= 0x8000_0000,
            acc == digits_value(d.subrange(0, j - start)),
            forall|k: int| 0 <= k < j - start ==> is_digit(#[trigger] d[k]),
        decreases n - j,
    {
        let c = s.get_char(j);
        assert(c == d[j - start]);
        if !((c as u32) >= 48 && (c as u32) <= 57) {
            proof {
                assert(!is_digit(d[j - start]));
                assert(!(forall|i: int| 0 <= i < d.len() ==> is_digit(#[trigger] d[i])));
                assert(s@.subrange(digits_start(s@), s@.len() as int) == d);
            }
            return None;
        }
        assert(d.subrange(0, j - start + 1).drop_last() =~= d.subrange(0, j - start));
        acc = acc * 10 + (c as u32 - 48) as i64;
        if acc > 0x8000_0000 {
            proof {
                assert(s@.subrange(digits_start(s@), s@.len() as int) == d);
                if forall|i: int| 0 <= i < d.len() ==> is_digit(#[trigger] d[i]) {
                    lemma_digits_grow(d, j - start + 1);
                    assert(digits_value(d) > 0x8000_0000);
                }
            }
            return None;
        }
        j = j + 1;
    }
    assert(d.subrange(0, d.len() as int) =~= d);
    let v: i64 = if neg { -acc } else { acc };
    if v > 0x7FFF_FFFF {
        return None;
    }
    Some(v as i32)
}

/// Reads the events of an XML constant list out of its bytes: those read up to the end, or
/// up to the first error of malformed XML, which is given with them.
pub fn xml_const_events(buf: &[u8]) -> (r: (Vec<XmlRawEvent>, Option<YetiIOError>))
    ensures
        r.0@.map_values(|e: XmlRawEvent| e@) == xml_parse(buf@).0,
        match xml_parse(buf@).1 {
            Some(m) => r.1 matches Some(e) && e@ == err_view(m, unset_key()),
            None => r.1 is None,
        },
{
    let (evs, err) = xml_read_events(buf);
    match err {
        Some(m) => (evs, Some(YetiIOError::from_message(m))),
        None => (evs, None),
    }
}

/// An event with the readings of its text: the integer it parses as and the given float.
pub open spec fn with_reading(raw: XmlRawEventView, float: Option<u32>) -> XmlConstEventView {
    match raw {
        XmlRawEventView::Start(a) => XmlConstEventView::Start(a),
        XmlRawEventView::Text(s) => XmlConstEventView::Text(s, i32_reading(s), float),
        XmlRawEventView::Other => XmlConstEventView::Other,
    }
}

fn copy_strings(v: &Vec<String>) -> (r: Vec<String>)
    ensures
        r@.map_values(|s: String| s@) == v@.map_values(|s: String| s@),
{
    let mut out: Vec<String> = Vec::new();
    let mut i: usize = 0;
    while i < v.len()
        invariant
            i <= v@.len(),
            out@.len() == i,
            forall|j: int| 0 <= j < i ==> #[trigger] out@[j]@ == v@[j]@,
        decreases v@.len() - i,
    {
        let c = v[i].clone();
        out.push(c);
        i = i + 1;
    }
    assert(out@.map_values(|s: String| s@) =~= v@.map_values(|s: String| s@));
    out
}

/// The events with the readings of their texts: the integer from std's parse, and the float
/// (as its bit pattern) given for the same event.
pub fn with_readings(raws: &Vec<XmlRawEvent>, floats: &Vec<Option<u32>>) -> (r: Vec<XmlConstEvent>)
    requires
        raws@.len() == floats@.len(),
    ensures
        r@.len() == raws@.len(),
        forall|i: int| 0 <= i < raws@.len() ==> #[trigger] r@[i]@ == with_reading(raws@[i]@, floats@[i]),
{
    let mut out: Vec<XmlConstEvent> = Vec::new();
    let mut i: usize = 0;
    while i < raws.len()
        invariant
            i <= raws@.len(),
            raws@.len() == floats@.len(),
            out@.len() == i,
            forall|j: int| 0 <= j < i ==> #[trigger] out@[j]@ == with_reading(raws@[j]@, floats@[j]),
        decreases raws@.len() - i,
    {
        let e = match &raws[i] {
            XmlRawEvent::Start(a) => XmlConstEvent::Start(copy_strings(a)),
            XmlRawEvent::Text(t) => {
                let n = parse_i32(t.as_str());
                XmlConstEvent::Text(t.clone(), n, floats[i])
            },
            XmlRawEvent::Other => XmlConstEvent::Other,
        };
        out.push(e);
        i = i + 1;
    }
    out
}

/// An event of an XML constant list, as the reader needs it: an element's start with the
/// values of its attributes; a run of text, with the integer and the 32-bit float (as its
/// bit pattern) that it parses as, where it does; anything else.
pub enum XmlConstEvent {
    Start(Vec<String>),
    Text(String, Option<i32>, Option<u32>),
    Other,
}

pub enum XmlConstEventView {
    Start(Seq<Seq<char>>),
    Text(Seq<char>, Option<i32>, Option<u32>),
    Other,
}

impl View for XmlConstEvent {
    type V = XmlConstEventView;

    open spec fn view(&self) -> XmlConstEventView {
        match self {
            XmlConstEvent::Start(v) => XmlConstEventView::Start(v@.map_values(|s: String| s@)),
            XmlConstEvent::Text(s, i, f) => XmlConstEventView::Text(s@, *i, *f),
            XmlConstEvent::Other => XmlConstEventView::Other,
        }
    }
}

/// Where the reader stands: before the list, between constants, or reading the value of
/// an integer, a float or a vector (with the components read so far).
#[derive(Debug, Clone, Copy, PartialEq, Eq, Structural)]
pub enum XmlReadState {
    Begin,
    NextConst,
    ReadInt,
    ReadFloat,
    ReadVec,
    ReadVecX,
    ReadVecY(u32),
    ReadVecZ(u32, u32),
}

/// Reads the constants of an XML constant list, one event at a time.
pub struct XmlConstReader {
    pub state: XmlReadState,
    pub name: String,
    pub consts: Vec<ConstValue>,
}

pub struct XmlReaderView {
    pub state: XmlReadState,
    pub name: Seq<char>,
    pub consts: Seq<ConstValueView>,
}

impl View for XmlConstReader {
    type V = XmlReaderView;

    open spec fn view(&self) -> XmlReaderView {
        XmlReaderView {
            state: self.state,
            name: self.name@,
            consts: self.consts@.map_values(|c: ConstValue| c@),
        }
    }
}

pub open spec fn xml_reader_start() -> XmlReaderView {
    XmlReaderView { state: XmlReadState::Begin, name: Seq::empty(), consts: Seq::empty() }
}

/// The state a constant's type attribute leads to: `INT`, `FLT` and `VEC` are read, any
/// other type is skipped.
pub open spec fn type_state(t: Seq<char>) -> XmlReadState {
    if t == "INT"@ {
        XmlReadState::ReadInt
    } else if t == "FLT"@ {
        XmlReadState::ReadFloat
    } else if t == "VEC"@ {
        XmlReadState::ReadVec
    } else {
        XmlReadState::NextConst
    }
}

/// A constant is complete: it is kept, and the reader waits for the next one.
pub open spec fn xml_pushed(r: XmlReaderView, c: ConstValueView) -> XmlReaderView {
    XmlReaderView { state: XmlReadState::NextConst, name: Seq::empty(), consts: r.consts.push(c) }
}

/// One event: the list's element opens the list; a constant's element names it and gives
/// its type (first and second attribute); a vector's inner element starts its components;
/// text completes an integer or a float, or gives the next component of a vector. Other
/// events, and events where none is expected, change nothing.
pub open spec fn xml_step(r: XmlReaderView, ev: XmlConstEventView) -> XmlReaderView {
    match ev {
        XmlConstEventView::Start(attrs) => match r.state {
            XmlReadState::Begin => XmlReaderView { state: XmlReadState::NextConst, ..r },
            XmlReadState::NextConst => XmlReaderView { state: type_state(attrs[1]), name: attrs[0], ..r },
            XmlReadState::ReadVec => XmlReaderView { state: XmlReadState::ReadVecX, ..r },
            _ => r,
        },
        XmlConstEventView::Text(_, i, f) => match r.state {
            XmlReadState::ReadInt => xml_pushed(r, ConstValueView::Int(r.name, i.unwrap())),
            XmlReadState::ReadFloat => xml_pushed(r, ConstValueView::Float(r.name, f.unwrap())),
            XmlReadState::ReadVecX => XmlReaderView { state: XmlReadState::ReadVecY(f.unwrap()), ..r },
            XmlReadState::ReadVecY(x) => XmlReaderView { state: XmlReadState::ReadVecZ(x, f.unwrap()), ..r },
            XmlReadState::ReadVecZ(x, y) => xml_pushed(
                r,
                ConstValueView::Vec(r.name, RawVec3 { x, y, z: f.unwrap() }),
            ),
            _ => r,
        },
        XmlConstEventView::Other => r,
    }
}

/// A constant's element with fewer than two attributes, and text that does not parse as
/// the number it is read as, are malformed: reading them aborts.
pub open spec fn xml_step_ok(r: XmlReaderView, ev: XmlConstEventView) -> bool {
    match ev {
        XmlConstEventView::Start(attrs) => r.state == XmlReadState::NextConst ==> attrs.len() >= 2,
        XmlConstEventView::Text(_, i, f) => match r.state {
            XmlReadState::ReadInt => i is Some,
            XmlReadState::ReadFloat => f is Some,
            XmlReadState::ReadVecX => f is Some,
            XmlReadState::ReadVecY(_) => f is Some,
            XmlReadState::ReadVecZ(_, _) => f is Some,
            _ => true,
        },
        XmlConstEventView::Other => true,
    }
}

/// The reader after all the events, from its start.
pub open spec fn xml_run(evs: Seq<XmlConstEventView>) -> XmlReaderView
    decreases evs.len(),
{
    if evs.len() == 0 {
        xml_reader_start()
    } else {
        xml_step(xml_run(evs.drop_last()), evs.last())
    }
}

/// No event on the way panics.
pub open spec fn xml_run_ok(evs: Seq<XmlConstEventView>) -> bool
    decreases evs.len(),
{
    evs.len() == 0 || (xml_run_ok(evs.drop_last()) && xml_step_ok(xml_run(evs.drop_last()), evs.last()))
}

/// The text of `s` is `t`.
fn text_is(s: &String, t: &str) -> (r: bool)
    ensures
        r == (s@ == t@),
{
    let u = <String as StringExecFns>::from_str(t);
    *s == u
}

impl XmlConstReader {
    pub fn new() -> (r: Self)
        ensures
            r@ == xml_reader_start(),
    {
        let r = XmlConstReader { state: XmlReadState::Begin, name: String::new(), consts: Vec::new() };
        assert(r@.consts =~= Seq::<ConstValueView>::empty());
        r
    }

    /// Whether the event can be read in the reader's state without aborting.
    pub fn step_ok(&self, ev: &XmlConstEvent) -> (r: bool)
        ensures
            r == xml_step_ok(self@, ev@),
    {
        match ev {
            XmlConstEvent::Start(attrs) => match self.state {
                XmlReadState::NextConst => attrs.len() >= 2,
                _ => true,
            },
            XmlConstEvent::Text(_, i, f) => match self.state {
                XmlReadState::ReadInt => i.is_some(),
                XmlReadState::ReadFloat => f.is_some(),
                XmlReadState::ReadVecX => f.is_some(),
                XmlReadState::ReadVecY(_) => f.is_some(),
                XmlReadState::ReadVecZ(_, _) => f.is_some(),
                _ => true,
            },
            XmlConstEvent::Other => true,
        }
    }

    fn push_const(&mut self, c: ConstValue)
        ensures
            final(self)@ == xml_pushed(old(self)@, c@),
    {
        let ghost before = self@.consts;
        self.consts.push(c);
        self.state = XmlReadState::NextConst;
        self.name = String::new();
        assert(self@.consts =~= before.push(c@));
    }

    /// Reads one event.
    pub fn step(&mut self, ev: &XmlConstEvent)
        requires
            xml_step_ok(old(self)@, ev@),
        ensures
            final(self)@ == xml_step(old(self)@, ev@),
    {
        match ev {
            XmlConstEvent::Start(attrs) => match self.state {
                XmlReadState::Begin => {
                    self.state = XmlReadState::NextConst;
                },
                XmlReadState::NextConst => {
                    proof {
                        reveal_strlit("INT");
                        reveal_strlit("FLT");
                        reveal_strlit("VEC");
                    }
                    let typ = &attrs[1];
                    let next = if text_is(typ, "INT") {
                        XmlReadState::ReadInt
                    } else if text_is(typ, "FLT") {
                        XmlReadState::ReadFloat
                    } else if text_is(typ, "VEC") {
                        XmlReadState::ReadVec
                    } else {
                        XmlReadState::NextConst
                    };
                    self.name = attrs[0].clone();
                    self.state = next;
                },
                XmlReadState::ReadVec => {
                    self.state = XmlReadState::ReadVecX;
                },
                _ => {},
            },
            XmlConstEvent::Text(_, i, f) => match self.state {
                XmlReadState::ReadInt => {
                    let c = ConstValue::Int(self.name.clone(), i.unwrap());
                    self.push_const(c);
                },
                XmlReadState::ReadFloat => {
                    let c = ConstValue::Float(self.name.clone(), f.unwrap());
                    self.push_const(c);
                },
                XmlReadState::ReadVecX => {
                    self.state = XmlReadState::ReadVecY(f.unwrap());
                },
                XmlReadState::ReadVecY(x) => {
                    self.state = XmlReadState::ReadVecZ(x, f.unwrap());
                },
                XmlReadState::ReadVecZ(x, y) => {
                    let c = ConstValue::Vec(self.name.clone(), RawVec3 { x, y, z: f.unwrap() });
                    self.push_const(c);
                },
                _ => {},
            },
            XmlConstEvent::Other => {},
        }
    }
}

impl AIConstList {
    /// Whether reading the events would reach a malformed one (see `xml_step_ok`).
    pub fn xml_events_panic(events: &Vec<XmlConstEvent>) -> (r: bool)
        ensures
            r == !xml_run_ok(events@.map_values(|e: XmlConstEvent| e@)),
    {
        let ghost evs = events@.map_values(|e: XmlConstEvent| e@);
        let mut reader = XmlConstReader::new();
        let mut k: usize = 0;
        while k < events.len()
            invariant
                evs == events@.map_values(|e: XmlConstEvent| e@),
                k <= events@.len(),
                xml_run_ok(evs.subrange(0, k as int)),
                reader@ == xml_run(evs.subrange(0, k as int)),
            decreases events@.len() - k,
        {
            proof {
                assert(evs.subrange(0, k + 1).drop_last() =~= evs.subrange(0, k as int));
                assert(evs.subrange(0, k + 1).last() == events@[k as int]@);
            }
            if !reader.step_ok(&events[k]) {
                proof {
                    lemma_run_ok_prefix(evs, k + 1);
                }
                return true;
            }
            reader.step(&events[k]);
            k = k + 1;
        }
        assert(evs.subrange(0, events@.len() as int) =~= evs);
        false
    }

    /// The constants of an XML constant list, read from its events in order.
    pub fn load_xml_consts(events: &Vec<XmlConstEvent>) -> (r: Vec<ConstValue>)
        requires
            xml_run_ok(events@.map_values(|e: XmlConstEvent| e@)),
        ensures
            r@.map_values(|c: ConstValue| c@) == xml_run(events@.map_values(|e: XmlConstEvent| e@)).consts,
    {
        let ghost evs = events@.map_values(|e: XmlConstEvent| e@);
        let mut reader = XmlConstReader::new();
        let mut k: usize = 0;
        while k < events.len()
            invariant
                evs == events@.map_values(|e: XmlConstEvent| e@),
                xml_run_ok(evs),
                k <= events@.len(),
                reader@ == xml_run(evs.subrange(0, k as int)),
            decreases events@.len() - k,
        {
            proof {
                assert(evs.subrange(0, k + 1).drop_last() =~= evs.subrange(0, k as int));
                assert(evs.subrange(0, k + 1).last() == events@[k as int]@);
                lemma_run_ok_prefix(evs, k + 1);
            }
            reader.step(&events[k]);
            k = k + 1;
        }
        assert(evs.subrange(0, events@.len() as int) =~= evs);
        reader.consts
    }
}

/// A run with no panic has none on any of its prefixes.
proof fn lemma_run_ok_prefix(evs: Seq<XmlConstEventView>, n: int)
    requires
        0 <= n <= evs.len(),
    ensures
        xml_run_ok(evs) ==> xml_run_ok(evs.subrange(0, n)),
    decreases evs.len() - n,
{
    if n < evs.len() {
        lemma_run_ok_prefix(evs, n + 1);
        assert(evs.subrange(0, n + 1).drop_last() =~= evs.subrange(0, n));
    } else {
        assert(evs.subrange(0, n) =~= evs);
    }
}

} // verus!

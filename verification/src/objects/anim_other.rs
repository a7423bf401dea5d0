use vstd::prelude::*;
use vstd::string::StringExecFns;
use crate::bytes::{ByteReader, avail, le_u16, le_u32, copy_into, zero_bytes};
use crate::error::{LoadError, eof_message, err_view, unset_key};
use crate::text::{hex_byte_text, decimal_text};
use crate::objects::common::{
    ArchetypeImpl, Outcome, outcome_of, keyless, Step, list_run, lemma_list_run_stops,
    error_with_hex_byte, error_with_decimal,
};

verus! {

/// The payload of an animation event, by its type byte.
#[derive(Debug)]
pub enum AnimEventData {
    Empty,
    Type01([u8; 30]),
    Type02([u8; 18]),
    Type03([u8; 18]),
}

pub enum AnimEventDataView {
    Empty,
    Type01(Seq<u8>),
    Type02(Seq<u8>),
    Type03(Seq<u8>),
}

impl View for AnimEventData {
    type V = AnimEventDataView;

    open spec fn view(&self) -> AnimEventDataView {
        match self {
            AnimEventData::Empty => AnimEventDataView::Empty,
            AnimEventData::Type01(d) => AnimEventDataView::Type01(d@),
            AnimEventData::Type02(d) => AnimEventDataView::Type02(d@),
            AnimEventData::Type03(d) => AnimEventDataView::Type03(d@),
        }
    }
}

impl Default for AnimEventData {
    fn default() -> (r: Self)
        ensures
            r@ == AnimEventDataView::Empty,
    {
        AnimEventData::Empty
    }
}

#[derive(Debug)]
pub struct AnimEvent {
    pub flags: u8,
    pub data: AnimEventData,
}

pub struct AnimEventView {
    pub flags: u8,
    pub data: AnimEventDataView,
}

impl View for AnimEvent {
    type V = AnimEventView;

    open spec fn view(&self) -> AnimEventView {
        AnimEventView { flags: self.flags, data: self.data@ }
    }
}

impl Default for AnimEvent {
    fn default() -> (r: Self)
        ensures
            r@ == (AnimEventView { flags: 0, data: AnimEventDataView::Empty }),
    {
        AnimEvent { flags: 0, data: AnimEventData::Empty }
    }
}

/// The events of an animation, after a signature and a version.
#[derive(Debug)]
pub struct AnimEventContainer {
    pub version: u32,
    pub events: Vec<AnimEvent>,
}

pub struct AnimEventContainerView {
    pub version: u32,
    pub events: Seq<AnimEventView>,
}

impl View for AnimEventContainer {
    type V = AnimEventContainerView;

    open spec fn view(&self) -> AnimEventContainerView {
        AnimEventContainerView { version: self.version, events: self.events@.map_values(|e: AnimEvent| e@) }
    }
}

impl Default for AnimEventContainer {
    fn default() -> (r: Self)
        ensures
            r@ == (AnimEventContainerView { version: 0, events: Seq::empty() }),
    {
        let r = AnimEventContainer { version: 0, events: Vec::new() };
        assert(r@.events =~= Seq::<AnimEventView>::empty());
        r
    }
}

pub open spec fn invalid_event_message(t: u8) -> Seq<char> {
    "invalid event data type: "@ + hex_byte_text(t)
}

/// One event: a type byte, a flags byte and the payload that the type gives.
pub open spec fn anim_event_at(s: Seq<u8>, p: int) -> Result<(AnimEventView, int), Seq<char>> {
    if !avail(s, p, 2) {
        Err(eof_message())
    } else {
        let t = s[p];
        let f = s[p + 1];
        if t == 1 {
            if !avail(s, p + 2, 30) {
                Err(eof_message())
            } else {
                Ok((AnimEventView { flags: f, data: AnimEventDataView::Type01(s.subrange(p + 2, p + 32)) }, p + 32))
            }
        } else if t == 2 || t == 3 {
            if !avail(s, p + 2, 18) {
                Err(eof_message())
            } else {
                let d = s.subrange(p + 2, p + 20);
                Ok((AnimEventView {
                    flags: f,
                    data: if t == 2 { AnimEventDataView::Type02(d) } else { AnimEventDataView::Type03(d) },
                }, p + 20))
            }
        } else {
            Err(invalid_event_message(t))
        }
    }
}

pub open spec fn anim_event_step() -> Step<AnimEventView> {
    |s: Seq<u8>, p: int| anim_event_at(s, p)
}

fn read_anim_event(r: &mut ByteReader) -> (res: Result<AnimEvent, LoadError>)
    ensures
        final(r).data() == old(r).data(),
        match anim_event_at(old(r).data(), old(r).at()) {
            Ok((ev, e)) => res is Ok && res->Ok_0@ == ev && final(r).at() == e,
            Err(m) => res is Err && res->Err_0@ == err_view(m, unset_key()),
        },
{
    let data_type = r.read_u8()?;
    let flags = r.read_u8()?;
    let data = if data_type == 1 {
        let d = r.read_exact(30)?;
        let mut a = zero_bytes::<30>();
        copy_into(&mut a, &d);
        AnimEventData::Type01(a)
    } else if data_type == 2 || data_type == 3 {
        let d = r.read_exact(18)?;
        let mut a = zero_bytes::<18>();
        copy_into(&mut a, &d);
        if data_type == 2 {
            AnimEventData::Type02(a)
        } else {
            AnimEventData::Type03(a)
        }
    } else {
        proof {
            reveal_strlit("invalid event data type: ");
        }
        return Err(error_with_hex_byte("invalid event data type: ", data_type));
    };
    Ok(AnimEvent { flags, data })
}

impl ArchetypeImpl for AnimEventContainer {
    /// A four-byte signature (not checked), a version, a count and that many events; the
    /// events replace those there were only when all of them were read.
    open spec fn load_spec(old: AnimEventContainerView, s: Seq<u8>) -> Outcome<AnimEventContainerView> {
        if s.len() < 8 {
            Outcome::Failed(old, eof_message())
        } else if s.len() < 12 {
            Outcome::Failed(AnimEventContainerView { version: le_u32(s, 4), ..old }, eof_message())
        } else {
            let run = list_run(s, 12, le_u32(s, 8) as nat, anim_event_step());
            match run.2 {
                Some(m) => Outcome::Failed(AnimEventContainerView { version: le_u32(s, 4), ..old }, m),
                None => Outcome::Done(AnimEventContainerView { version: le_u32(s, 4), events: run.0 }),
            }
        }
    }

    /// Unloading keeps everything.
    open spec fn unload_spec(old: AnimEventContainerView) -> AnimEventContainerView {
        old
    }

    fn load_from_buf(&mut self, buf: &[u8]) -> (r: Result<(), LoadError>) {
        let ghost s = buf@;
        let mut cursor = ByteReader::new(buf);
        let _sig = cursor.read_exact(4)?;
        self.version = cursor.read_u32()?;
        let num_events = cursor.read_u32()?;
        let mut events: Vec<AnimEvent> = Vec::new();
        let mut k: u32 = 0;
        assert(events@.map_values(|e: AnimEvent| e@) =~= list_run(s, 12, 0, anim_event_step()).0);
        while k < num_events
            invariant
                cursor.data() == s,
                s == buf@,
                s.len() >= 12,
                num_events == le_u32(s, 8),
                self.version == le_u32(s, 4),
                self@.events == old(self)@.events,
                k <= num_events,
                list_run(s, 12, k as nat, anim_event_step()).2 is None,
                list_run(s, 12, k as nat, anim_event_step()).1 == cursor.at(),
                events@.map_values(|e: AnimEvent| e@) == list_run(s, 12, k as nat, anim_event_step()).0,
            decreases num_events - k,
        {
            match read_anim_event(&mut cursor) {
                Ok(e) => {
                    let ghost before = events@.map_values(|e: AnimEvent| e@);
                    let ghost ev = e@;
                    events.push(e);
                    k = k + 1;
                    assert(events@.map_values(|e: AnimEvent| e@) =~= before.push(ev));
                },
                Err(e) => {
                    proof {
                        lemma_list_run_stops(s, 12, (k + 1) as nat, num_events as nat, anim_event_step());
                    }
                    return Err(e);
                },
            }
        }
        self.events = events;
        Ok(())
    }

    fn unload(&mut self) {
    }
}

/// A list of actions: a version and how many actions it holds.
#[derive(Debug)]
pub struct ListActionBank {
    pub version: u32,
    pub num_actions: u16,
}

impl View for ListActionBank {
    type V = (u32, u16);

    open spec fn view(&self) -> (u32, u16) {
        (self.version, self.num_actions)
    }
}

impl Default for ListActionBank {
    fn default() -> (r: Self)
        ensures
            r@ == (0u32, 0u16),
    {
        ListActionBank { version: 0, num_actions: 0 }
    }
}

impl ArchetypeImpl for ListActionBank {
    open spec fn load_spec(old: (u32, u16), s: Seq<u8>) -> Outcome<(u32, u16)> {
        if s.len() < 4 {
            Outcome::Failed(old, eof_message())
        } else if s.len() < 6 {
            Outcome::Failed((le_u32(s, 0), old.1), eof_message())
        } else {
            Outcome::Done((le_u32(s, 0), le_u16(s, 4)))
        }
    }

    /// Unloading keeps everything.
    open spec fn unload_spec(old: (u32, u16)) -> (u32, u16) {
        old
    }

    fn load_from_buf(&mut self, buf: &[u8]) -> (r: Result<(), LoadError>) {
        let mut cursor = ByteReader::new(buf);
        self.version = cursor.read_u32()?;
        self.num_actions = cursor.read_u16()?;
        Ok(())
    }

    fn unload(&mut self) {
    }
}

/// A bank of actions: a version and ten bytes not understood yet.
#[derive(Debug)]
pub struct ActionBank {
    pub version: u32,
    pub unk_dat01: [u8; 10],
}

impl View for ActionBank {
    type V = (u32, Seq<u8>);

    open spec fn view(&self) -> (u32, Seq<u8>) {
        (self.version, self.unk_dat01@)
    }
}

impl Default for ActionBank {
    fn default() -> (r: Self)
        ensures
            r@ == (0u32, Seq::new(10, |i: int| 0u8)),
    {
        let r = ActionBank { version: 0, unk_dat01: zero_bytes::<10>() };
        assert(r@.1 =~= Seq::new(10, |i: int| 0u8));
        r
    }
}

impl ArchetypeImpl for ActionBank {
    open spec fn load_spec(old: (u32, Seq<u8>), s: Seq<u8>) -> Outcome<(u32, Seq<u8>)> {
        if s.len() < 4 {
            Outcome::Failed(old, eof_message())
        } else if s.len() < 14 {
            Outcome::Failed((le_u32(s, 0), old.1), eof_message())
        } else {
            Outcome::Done((le_u32(s, 0), s.subrange(4, 14)))
        }
    }

    /// Unloading keeps everything.
    open spec fn unload_spec(old: (u32, Seq<u8>)) -> (u32, Seq<u8>) {
        old
    }

    fn load_from_buf(&mut self, buf: &[u8]) -> (r: Result<(), LoadError>) {
        let mut cursor = ByteReader::new(buf);
        self.version = cursor.read_u32()?;
        let d = cursor.read_exact(10)?;
        copy_into(&mut self.unk_dat01, &d);
        Ok(())
    }

    fn unload(&mut self) {
    }
}

/// What an action does, by its type; the three floats of the second kind are kept as
/// their bit patterns.
#[derive(Debug, Clone, Copy)]
pub enum ActionType {
    NoAction,
    Type01,
    Type02([u32; 3]),
}

#[derive(Debug)]
pub struct Action {
    pub action_type: ActionType,
    pub unk_01: u16,
}

pub enum ActionTypeView {
    NoAction,
    Type01,
    Type02(Seq<u32>),
}

pub open spec fn action_type_view(t: ActionType) -> ActionTypeView {
    match t {
        ActionType::NoAction => ActionTypeView::NoAction,
        ActionType::Type01 => ActionTypeView::Type01,
        ActionType::Type02(f) => ActionTypeView::Type02(f@),
    }
}

impl View for Action {
    type V = (ActionTypeView, u16);

    open spec fn view(&self) -> (ActionTypeView, u16) {
        (action_type_view(self.action_type), self.unk_01)
    }
}

impl Default for Action {
    fn default() -> (r: Self)
        ensures
            r@ == (ActionTypeView::NoAction, 0u16),
    {
        Action { action_type: ActionType::NoAction, unk_01: 0 }
    }
}

pub open spec fn weird_action_message(t: u32) -> Seq<char> {
    "weird action type "@ + decimal_text(t as int)
}

impl ArchetypeImpl for Action {
    /// A type, a value kept as it is, and for the second type three floats.
    open spec fn load_spec(old: (ActionTypeView, u16), s: Seq<u8>) -> Outcome<(ActionTypeView, u16)> {
        if s.len() < 6 {
            Outcome::Failed(old, eof_message())
        } else {
            let t = le_u32(s, 0);
            let u = le_u16(s, 4);
            if t == 1 {
                Outcome::Done((ActionTypeView::Type01, u))
            } else if t == 2 {
                if s.len() < 18 {
                    Outcome::Failed((old.0, u), eof_message())
                } else {
                    Outcome::Done((ActionTypeView::Type02(seq![le_u32(s, 6), le_u32(s, 10), le_u32(s, 14)]), u))
                }
            } else {
                Outcome::Failed((old.0, u), weird_action_message(t))
            }
        }
    }

    /// Unloading keeps everything.
    open spec fn unload_spec(old: (ActionTypeView, u16)) -> (ActionTypeView, u16) {
        old
    }

    fn load_from_buf(&mut self, buf: &[u8]) -> (r: Result<(), LoadError>) {
        let mut cursor = ByteReader::new(buf);
        let action_type = cursor.read_u32()?;
        self.unk_01 = cursor.read_u16()?;
        if action_type == 1 {
            self.action_type = ActionType::Type01;
        } else if action_type == 2 {
            let a = cursor.read_u32()?;
            let b = cursor.read_u32()?;
            let c = cursor.read_u32()?;
            let f = [a, b, c];
            assert(f@ =~= seq![a, b, c]);
            self.action_type = ActionType::Type02(f);
        } else {
            proof {
                reveal_strlit("weird action type ");
            }
            return Err(error_with_decimal("weird action type ", action_type as i128));
        }
        Ok(())
    }

    fn unload(&mut self) {
    }
}

} // verus!

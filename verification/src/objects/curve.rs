use vstd::prelude::*;
use crate::bytes::{ByteReader, avail, le_u16, le_u32, le_i32, unwrap_read};
use crate::error::{LoadError, eof_message, err_view, unset_key};
use crate::text::decimal_text;
use crate::objects::common::{
    ArchetypeImpl, Outcome, outcome_of, keyless, Step, list_run, lemma_list_run_stops,
    error_with_decimal,
};

verus! {

/// A point of a curve; its four floats are kept as their bit patterns.
#[derive(Clone, Copy, PartialEq, Eq, Structural)]
pub struct CurvePoint {
    pub flags: u8,
    pub x: u32,
    pub y: u32,
    pub in_tangent: u32,
    pub out_tangent: u32,
}

/// A curve that holds one value.
pub struct ConstantCurve {
    pub point: CurvePoint,
}

/// A curve of (x, y) points.
pub struct SimpleCurve {
    pub points: Vec<CurvePoint>,
}

/// A curve of points with flags and tangents.
pub struct FullCurve {
    pub flags: u8,
    pub points: Vec<CurvePoint>,
}

/// The curve an object holds, or `Invalid` when none is loaded.
pub enum CurveType {
    Invalid,
    Constant(ConstantCurve),
    Simple(SimpleCurve),
    Full(FullCurve),
}

pub enum CurveView {
    Invalid,
    Constant(CurvePoint),
    Simple(Seq<CurvePoint>),
    Full(u8, Seq<CurvePoint>),
}

impl View for CurveType {
    type V = CurveView;

    open spec fn view(&self) -> CurveView {
        match self {
            CurveType::Invalid => CurveView::Invalid,
            CurveType::Constant(c) => CurveView::Constant(c.point),
            CurveType::Simple(c) => CurveView::Simple(c.points@),
            CurveType::Full(c) => CurveView::Full(c.flags, c.points@),
        }
    }
}

/// A point of a simple curve at `p`: x and y.
pub open spec fn simple_point_at(s: Seq<u8>, p: int) -> Result<(CurvePoint, int), Seq<char>> {
    if !avail(s, p, 8) {
        Err(eof_message())
    } else {
        Ok((CurvePoint { flags: 0, x: le_u32(s, p), y: le_u32(s, p + 4), in_tangent: 0, out_tangent: 0 }, p + 8))
    }
}

/// A point of a full curve at `p`: flags, x, y and the two tangents.
pub open spec fn full_point_at(s: Seq<u8>, p: int) -> Result<(CurvePoint, int), Seq<char>> {
    if !avail(s, p, 17) {
        Err(eof_message())
    } else {
        Ok(
            (
                CurvePoint {
                    flags: s[p],
                    x: le_u32(s, p + 1),
                    y: le_u32(s, p + 5),
                    in_tangent: le_u32(s, p + 9),
                    out_tangent: le_u32(s, p + 13),
                },
                p + 17,
            ),
        )
    }
}

pub open spec fn simple_point_step() -> Step<CurvePoint> {
    |s: Seq<u8>, p: int| simple_point_at(s, p)
}

pub open spec fn full_point_step() -> Step<CurvePoint> {
    |s: Seq<u8>, p: int| full_point_at(s, p)
}

/// The curve that `s` holds, or the message of the failure.
pub open spec fn curve_of(s: Seq<u8>) -> Result<CurveView, Seq<char>> {
    let kind = le_i32(s, 0);
    if kind == 0 {
        if !avail(s, 4, 4) {
            Err(eof_message())
        } else {
            Ok(CurveView::Constant(CurvePoint { flags: 0, x: 0, y: le_u32(s, 4), in_tangent: 0, out_tangent: 0 }))
        }
    } else if kind == 2 {
        if !avail(s, 4, 2) {
            Err(eof_message())
        } else {
            let run = list_run(s, 6, le_u16(s, 4) as nat, simple_point_step());
            match run.2 {
                Some(m) => Err(m),
                None => Ok(CurveView::Simple(run.0)),
            }
        }
    } else if kind == 4 {
        if !avail(s, 4, 3) {
            Err(eof_message())
        } else {
            let run = list_run(s, 7, le_u16(s, 4) as nat, full_point_step());
            match run.2 {
                Some(m) => Err(m),
                None => Ok(CurveView::Full(s[6], run.0)),
            }
        }
    } else {
        Err("Invalid curve type: "@ + decimal_text(kind as int))
    }
}

/// A curve object.
pub struct YetiCurve {
    pub curve: CurveType,
}

impl View for YetiCurve {
    type V = CurveView;

    open spec fn view(&self) -> CurveView {
        self.curve@
    }
}

impl Default for YetiCurve {
    fn default() -> (r: Self)
        ensures
            r@ == CurveView::Invalid,
    {
        YetiCurve { curve: CurveType::Invalid }
    }
}

impl YetiCurve {
    fn load_constant_curve(buf: &mut ByteReader) -> (r: Result<CurveType, LoadError>)
        requires
            old(buf).at() == 4,
            le_i32(old(buf).data(), 0) == 0,
        ensures
            match curve_of(old(buf).data()) {
                Ok(c) => r is Ok && r->Ok_0@ == c,
                Err(m) => r is Err && r->Err_0@ == err_view(m, unset_key()),
            },
    {
        let y = buf.read_u32()?;
        Ok(CurveType::Constant(ConstantCurve { point: CurvePoint { flags: 0, x: 0, y, in_tangent: 0, out_tangent: 0 } }))
    }

    fn load_simple_curve(buf: &mut ByteReader) -> (r: Result<CurveType, LoadError>)
        requires
            old(buf).at() == 4,
            le_i32(old(buf).data(), 0) == 2,
        ensures
            match curve_of(old(buf).data()) {
                Ok(c) => r is Ok && r->Ok_0@ == c,
                Err(m) => r is Err && r->Err_0@ == err_view(m, unset_key()),
            },
    {
        let ghost s = buf.data();
        let count = buf.read_u16()?;
        let mut v: Vec<CurvePoint> = Vec::new();
        let mut i: u16 = 0;
        while i < count
            invariant
                buf.data() == s,
                s.len() >= 6,
                s == old(buf).data(),
                le_i32(s, 0) == 2,
                count == le_u16(s, 4),
                i <= count,
                list_run(s, 6, i as nat, simple_point_step()).2 is None,
                list_run(s, 6, i as nat, simple_point_step()).1 == buf.at(),
                list_run(s, 6, i as nat, simple_point_step()).0 == v@,
            decreases count - i,
        {
            let ghost prev = list_run(s, 6, i as nat, simple_point_step());
            let ghost p = buf.at();
            let x = match buf.read_u32() {
                Ok(x) => x,
                Err(e) => {
                    proof {
                        lemma_list_run_stops(s, 6, (i + 1) as nat, count as nat, simple_point_step());
                    }
                    return Err(e);
                },
            };
            let y = match buf.read_u32() {
                Ok(y) => y,
                Err(e) => {
                    proof {
                        lemma_list_run_stops(s, 6, (i + 1) as nat, count as nat, simple_point_step());
                    }
                    return Err(e);
                },
            };
            v.push(CurvePoint { flags: 0, x, y, in_tangent: 0, out_tangent: 0 });
            i = i + 1;
            assert(v@ =~= list_run(s, 6, i as nat, simple_point_step()).0);
        }
        Ok(CurveType::Simple(SimpleCurve { points: v }))
    }

    fn load_full_curve(buf: &mut ByteReader) -> (r: Result<CurveType, LoadError>)
        requires
            old(buf).at() == 4,
            le_i32(old(buf).data(), 0) == 4,
        ensures
            match curve_of(old(buf).data()) {
                Ok(c) => r is Ok && r->Ok_0@ == c,
                Err(m) => r is Err && r->Err_0@ == err_view(m, unset_key()),
            },
    {
        let ghost s = buf.data();
        let count = buf.read_u16()?;
        let flags = buf.read_u8()?;
        let mut v: Vec<CurvePoint> = Vec::new();
        let mut i: u16 = 0;
        while i < count
            invariant
                buf.data() == s,
                s.len() >= 7,
                s == old(buf).data(),
                le_i32(s, 0) == 4,
                count == le_u16(s, 4),
                flags == s[6],
                i <= count,
                list_run(s, 7, i as nat, full_point_step()).2 is None,
                list_run(s, 7, i as nat, full_point_step()).1 == buf.at(),
                list_run(s, 7, i as nat, full_point_step()).0 == v@,
            decreases count - i,
        {
            let ghost p = buf.at();
            let pf = buf.read_u8();
            let px = buf.read_u32();
            let py = buf.read_u32();
            let pi = buf.read_u32();
            let po = buf.read_u32();
            match (pf, px, py, pi, po) {
                (Ok(f), Ok(x), Ok(y), Ok(t0), Ok(t1)) => {
                    v.push(CurvePoint { flags: f, x, y, in_tangent: t0, out_tangent: t1 });
                    i = i + 1;
                    assert(v@ =~= list_run(s, 7, i as nat, full_point_step()).0);
                },
                _ => {
                    proof {
                        lemma_list_run_stops(s, 7, (i + 1) as nat, count as nat, full_point_step());
                    }
                    return Err(LoadError::eof());
                },
            }
        }
        Ok(CurveType::Full(FullCurve { points: v, flags }))
    }
}

/// A kind number (fewer than four bytes abort the load), then the curve; a
/// failure leaves the object without a curve.
pub open spec fn curve_load(old: CurveView, s: Seq<u8>) -> Outcome<CurveView> {
    if s.len() < 4 {
        Outcome::Panics
    } else {
        match curve_of(s) {
            Ok(c) => Outcome::Done(c),
            Err(m) => Outcome::Failed(CurveView::Invalid, m),
        }
    }
    }

impl ArchetypeImpl for YetiCurve {
    open spec fn load_spec(old: CurveView, s: Seq<u8>) -> Outcome<CurveView> {
        curve_load(old, s)
    }

    open spec fn unload_spec(old: CurveView) -> CurveView {
        CurveView::Invalid
    }

    fn load_from_buf(&mut self, buf: &[u8]) -> (r: Result<(), LoadError>) {
        let mut cursor = ByteReader::new(buf);
        let curve = match unwrap_read(cursor.read_i32()) {
            0 => Self::load_constant_curve(&mut cursor),
            2 => Self::load_simple_curve(&mut cursor),
            4 => Self::load_full_curve(&mut cursor),
            v => Err(error_with_decimal("Invalid curve type: ", v as i128)),
        };
        match curve {
            Ok(cur) => {
                self.curve = cur;
                Ok(())
            },
            Err(error) => {
                self.curve = CurveType::Invalid;
                Err(error)
            },
        }
    }

    fn unload(&mut self) {
        self.curve = CurveType::Invalid;
    }
}


} // verus!

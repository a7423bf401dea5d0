use vstd::prelude::*;
use crate::bytes::{ByteReader, avail, le_u32, le_i32};
use crate::error::{LoadError, eof_message, err_view, unset_key};
use crate::text::{nul_string_at, read_nul_term_string, decimal_text};
use crate::objects::common::{
    ArchetypeImpl, Outcome, outcome_of, keyless, Step, list_run, lemma_list_run_stops,
    error_with_decimal,
};

verus! {

/// A value of a data table: an integer, a float (kept as its bit pattern), a string or an
/// asset key.
pub enum ColumnData {
    Int(i32),
    Float(u32),
    String(String),
    Asset(u32),
}

pub enum ColumnDataView {
    Int(i32),
    Float(u32),
    Text(Seq<char>),
    Asset(u32),
}

impl View for ColumnData {
    type V = ColumnDataView;

    open spec fn view(&self) -> ColumnDataView {
        match self {
            ColumnData::Int(v) => ColumnDataView::Int(*v),
            ColumnData::Float(v) => ColumnDataView::Float(*v),
            ColumnData::String(v) => ColumnDataView::Text(v@),
            ColumnData::Asset(v) => ColumnDataView::Asset(*v),
        }
    }
}

impl Default for ColumnData {
    fn default() -> (r: Self)
        ensures
            r@ == ColumnDataView::Int(0),
    {
        ColumnData::Int(0)
    }
}

/// A column: its name and a value of its kind.
pub struct DataTableColumn {
    pub name: String,
    pub data: ColumnData,
}

pub struct DataTableColumnView {
    pub name: Seq<char>,
    pub data: ColumnDataView,
}

impl View for DataTableColumn {
    type V = DataTableColumnView;

    open spec fn view(&self) -> DataTableColumnView {
        DataTableColumnView { name: self.name@, data: self.data@ }
    }
}

/// A row: a value for each column.
pub struct DataTableRow {
    pub data: Vec<ColumnData>,
}

impl View for DataTableRow {
    type V = Seq<ColumnDataView>;

    open spec fn view(&self) -> Seq<ColumnDataView> {
        self.data@.map_values(|d: ColumnData| d@)
    }
}

/// A value of the same kind as `kind`, read at `p`.
pub open spec fn value_at(s: Seq<u8>, p: int, kind: ColumnDataView) -> Result<(ColumnDataView, int), Seq<char>> {
    match kind {
        ColumnDataView::Text(_) => match nul_string_at(s, p) {
            Err(m) => Err(m),
            Ok((t, q)) => Ok((ColumnDataView::Text(t), q)),
        },
        _ => if !avail(s, p, 4) {
            Err(eof_message())
        } else {
            Ok(
                (
                    match kind {
                        ColumnDataView::Int(_) => ColumnDataView::Int(le_i32(s, p)),
                        ColumnDataView::Float(_) => ColumnDataView::Float(le_u32(s, p)),
                        _ => ColumnDataView::Asset(le_u32(s, p)),
                    },
                    p + 4,
                ),
            )
        },
    }
}

/// A column at `p`: a zero-terminated name, a kind number and a value of that kind.
pub open spec fn column_at(s: Seq<u8>, p: int) -> Result<(DataTableColumnView, int), Seq<char>> {
    match nul_string_at(s, p) {
        Err(m) => Err(m),
        Ok((name, q)) => if !avail(s, q, 4) {
            Err(eof_message())
        } else {
            let k = le_i32(s, q);
            if k == 1 || k == 2 || k == 4 {
                if !avail(s, q + 4, 4) {
                    Err(eof_message())
                } else {
                    let d = if k == 1 {
                        ColumnDataView::Int(le_i32(s, q + 4))
                    } else if k == 2 {
                        ColumnDataView::Float(le_u32(s, q + 4))
                    } else {
                        ColumnDataView::Asset(le_u32(s, q + 4))
                    };
                    Ok((DataTableColumnView { name, data: d }, q + 8))
                }
            } else if k == 3 {
                match nul_string_at(s, q + 4) {
                    Err(m) => Err(m),
                    Ok((t, q2)) => Ok((DataTableColumnView { name, data: ColumnDataView::Text(t) }, q2)),
                }
            } else {
                Err("unknown datatable column type: "@ + decimal_text(k as int))
            }
        },
    }
}

pub open spec fn column_step() -> Step<DataTableColumnView> {
    |s: Seq<u8>, p: int| column_at(s, p)
}

/// The first `n` values of a row whose columns are `cols`, read from `p`.
pub open spec fn row_values(s: Seq<u8>, p: int, cols: Seq<DataTableColumnView>, n: nat) -> Result<(Seq<ColumnDataView>, int), Seq<char>>
    decreases n,
{
    if n == 0 {
        Ok((Seq::empty(), p))
    } else {
        match row_values(s, p, cols, (n - 1) as nat) {
            Err(m) => Err(m),
            Ok((vs, q)) => match value_at(s, q, cols[n - 1].data) {
                Err(m) => Err(m),
                Ok((v, q2)) => Ok((vs.push(v), q2)),
            },
        }
    }
}

pub proof fn lemma_row_values_stops(s: Seq<u8>, p: int, cols: Seq<DataTableColumnView>, i: nat, n: nat)
    requires
        i <= n,
        row_values(s, p, cols, i) is Err,
    ensures
        row_values(s, p, cols, n) == row_values(s, p, cols, i),
    decreases n - i,
{
    if i < n {
        lemma_row_values_stops(s, p, cols, i, (n - 1) as nat);
    }
}

pub open spec fn row_step(cols: Seq<DataTableColumnView>) -> Step<Seq<ColumnDataView>> {
    |s: Seq<u8>, p: int| row_values(s, p, cols, cols.len())
}

/// A data table: its columns and its rows.
pub struct DataTable {
    pub columns: Vec<DataTableColumn>,
    pub rows: Vec<DataTableRow>,
}

pub struct DataTableView {
    pub columns: Seq<DataTableColumnView>,
    pub rows: Seq<Seq<ColumnDataView>>,
}

impl View for DataTable {
    type V = DataTableView;

    open spec fn view(&self) -> DataTableView {
        DataTableView {
            columns: self.columns@.map_values(|c: DataTableColumn| c@),
            rows: self.rows@.map_values(|r: DataTableRow| r@),
        }
    }
}

pub open spec fn empty_table() -> DataTableView {
    DataTableView { columns: Seq::empty(), rows: Seq::empty() }
}

impl Default for DataTable {
    fn default() -> (r: Self)
        ensures
            r@ == empty_table(),
    {
        let r = DataTable { columns: Vec::new(), rows: Vec::new() };
        assert(r@.columns =~= Seq::<DataTableColumnView>::empty());
        assert(r@.rows =~= Seq::<Seq<ColumnDataView>>::empty());
        r
    }
}

fn read_value(r: &mut ByteReader, kind: &ColumnData) -> (res: Result<ColumnData, LoadError>)
    ensures
        final(r).data() == old(r).data(),
        match value_at(old(r).data(), old(r).at(), kind@) {
            Ok((v, q)) => res is Ok && res->Ok_0@ == v && final(r).at() == q,
            Err(m) => res is Err && res->Err_0@ == err_view(m, unset_key()),
        },
{
    match kind {
        ColumnData::Int(_) => Ok(ColumnData::Int(r.read_i32()?)),
        ColumnData::Float(_) => Ok(ColumnData::Float(r.read_u32()?)),
        ColumnData::String(_) => Ok(ColumnData::String(read_nul_term_string(r)?)),
        ColumnData::Asset(_) => Ok(ColumnData::Asset(r.read_u32()?)),
    }
}

fn read_column(r: &mut ByteReader) -> (res: Result<DataTableColumn, LoadError>)
    ensures
        final(r).data() == old(r).data(),
        match column_at(old(r).data(), old(r).at()) {
            Ok((c, q)) => res is Ok && res->Ok_0@ == c && final(r).at() == q,
            Err(m) => res is Err && res->Err_0@ == err_view(m, unset_key()),
        },
{
    let name = read_nul_term_string(r)?;
    let data = match r.read_i32()? {
        1 => ColumnData::Int(r.read_i32()?),
        2 => ColumnData::Float(r.read_u32()?),
        3 => ColumnData::String(read_nul_term_string(r)?),
        4 => ColumnData::Asset(r.read_u32()?),
        v => {
            return Err(error_with_decimal("unknown datatable column type: ", v as i128));
        },
    };
    Ok(DataTableColumn { name, data })
}

fn read_row(r: &mut ByteReader, columns: &Vec<DataTableColumn>) -> (res: Result<DataTableRow, LoadError>)
    ensures
        final(r).data() == old(r).data(),
        ({
            let cols = columns@.map_values(|c: DataTableColumn| c@);
            match row_values(old(r).data(), old(r).at(), cols, cols.len()) {
                Ok((vs, q)) => res is Ok && res->Ok_0@ == vs && final(r).at() == q,
                Err(m) => res is Err && res->Err_0@ == err_view(m, unset_key()),
            }
        }),
{
    let ghost s = r.data();
    let ghost p = r.at();
    let ghost cols = columns@.map_values(|c: DataTableColumn| c@);
    let mut row = DataTableRow { data: Vec::new() };
    let mut j: usize = 0;
    assert(row@ =~= Seq::<ColumnDataView>::empty());
    while j < columns.len()
        invariant
            r.data() == s,
            s == old(r).data(),
            p == old(r).at(),
            cols == columns@.map_values(|c: DataTableColumn| c@),
            0 <= j <= columns@.len(),
            row_values(s, p, cols, j as nat) == Ok::<(Seq<ColumnDataView>, int), Seq<char>>((row@, r.at())),
        decreases columns@.len() - j,
    {
        match read_value(r, &columns[j].data) {
            Ok(v) => {
                row.data.push(v);
                j = j + 1;
                assert(row@ =~= row_values(s, p, cols, j as nat)->Ok_0.0);
            },
            Err(e) => {
                proof {
                    lemma_row_values_stops(s, p, cols, (j + 1) as nat, cols.len());
                }
                return Err(e);
            },
        }
    }
    Ok(row)
}

/// Column and row counts, then the columns, appended to those already there, then the
/// rows, each with a value for every column the table now has, appended likewise; what is
/// read before a failure stays.
pub open spec fn data_table_load(old: DataTableView, s: Seq<u8>) -> Outcome<DataTableView> {
    if s.len() < 8 {
        Outcome::Failed(old, eof_message())
    } else {
        let ncols = le_i32(s, 0);
        let nrows = le_i32(s, 4);
        let crun = list_run(s, 8, if ncols > 0 { ncols as nat } else { 0 }, column_step());
        let cols = old.columns + crun.0;
        match crun.2 {
            Some(m) => Outcome::Failed(DataTableView { columns: cols, ..old }, m),
            None => {
                let rrun = list_run(s, crun.1, if nrows > 0 { nrows as nat } else { 0 }, row_step(cols));
                let v = DataTableView { columns: cols, rows: old.rows + rrun.0 };
                match rrun.2 {
                    Some(m) => Outcome::Failed(v, m),
                    None => Outcome::Done(v),
                }
            },
        }
    }
    }

impl ArchetypeImpl for DataTable {
    open spec fn load_spec(old: DataTableView, s: Seq<u8>) -> Outcome<DataTableView> {
        data_table_load(old, s)
    }

    open spec fn unload_spec(old: DataTableView) -> DataTableView {
        empty_table()
    }

    fn load_from_buf(&mut self, buf: &[u8]) -> (r: Result<(), LoadError>) {
        let ghost s = buf@;
        let ghost old_v = self@;
        let mut cursor = ByteReader::new(buf);
        let num_cols = cursor.read_i32()?;
        let num_rows = cursor.read_i32()?;
        let ncols: u32 = if num_cols > 0 { num_cols as u32 } else { 0 };
        let nrows: u32 = if num_rows > 0 { num_rows as u32 } else { 0 };
        let mut idx: u32 = 0;
        assert(self@.columns =~= old_v.columns + list_run(s, 8, 0, column_step()).0);
        while idx < ncols
            invariant
                cursor.data() == s,
                s == buf@,
                s.len() >= 8,
                ncols == (if le_i32(s, 0) > 0 { le_i32(s, 0) as nat } else { 0 }),
                idx <= ncols,
                old_v == old(self)@,
                self@.rows == old_v.rows,
                list_run(s, 8, idx as nat, column_step()).2 is None,
                list_run(s, 8, idx as nat, column_step()).1 == cursor.at(),
                self@.columns == old_v.columns + list_run(s, 8, idx as nat, column_step()).0,
            decreases ncols - idx,
        {
            let ghost prev = list_run(s, 8, idx as nat, column_step());
            match read_column(&mut cursor) {
                Ok(c) => {
                    assert(column_step()(s, prev.1) == Ok::<(DataTableColumnView, int), Seq<char>>((c@, cursor.at())));
                    assert(list_run(s, 8, (idx + 1) as nat, column_step()).0 == prev.0.push(c@));
                    let ghost before = self@.columns;
                    let ghost cv = c@;
                    self.columns.push(c);
                    assert(self@.columns =~= before.push(cv));
                    assert(before.push(cv) =~= old_v.columns + prev.0.push(cv));
                    idx = idx + 1;
                    assert(self@.columns =~= old_v.columns + list_run(s, 8, idx as nat, column_step()).0);
                },
                Err(e) => {
                    proof {
                        assert(list_run(s, 8, (idx + 1) as nat, column_step()).2 == Some(e@.0));
                        assert(list_run(s, 8, (idx + 1) as nat, column_step()).0 == prev.0);
                        lemma_list_run_stops(s, 8, (idx + 1) as nat, ncols as nat, column_step());
                    }
                    return Err(e);
                },
            }
        }
        let ghost cols = self@.columns;
        let ghost q = cursor.at();
        let mut k: u32 = 0;
        assert(self@.rows =~= old_v.rows + list_run(s, q, 0, row_step(cols)).0);
        while k < nrows
            invariant
                cursor.data() == s,
                s == buf@,
                s.len() >= 8,
                nrows == (if le_i32(s, 4) > 0 { le_i32(s, 4) as nat } else { 0 }),
                k <= nrows,
                old_v == old(self)@,
                self@.columns == cols,
                ncols == (if le_i32(s, 0) > 0 { le_i32(s, 0) as nat } else { 0 }),
                list_run(s, 8, ncols as nat, column_step()).2 is None,
                list_run(s, 8, ncols as nat, column_step()).1 == q,
                cols == old_v.columns + list_run(s, 8, ncols as nat, column_step()).0,
                list_run(s, q, k as nat, row_step(cols)).2 is None,
                list_run(s, q, k as nat, row_step(cols)).1 == cursor.at(),
                self@.rows == old_v.rows + list_run(s, q, k as nat, row_step(cols)).0,
            decreases nrows - k,
        {
            let ghost prev = list_run(s, q, k as nat, row_step(cols));
            match read_row(&mut cursor, &self.columns) {
                Ok(row) => {
                    assert(row_step(cols)(s, prev.1) == Ok::<(Seq<ColumnDataView>, int), Seq<char>>((row@, cursor.at())));
                    assert(list_run(s, q, (k + 1) as nat, row_step(cols)).0 == prev.0.push(row@));
                    let ghost before = self@.rows;
                    let ghost rv = row@;
                    self.rows.push(row);
                    assert(self@.rows =~= before.push(rv));
                    assert(before.push(rv) =~= old_v.rows + prev.0.push(rv));
                    k = k + 1;
                    assert(self@.rows =~= old_v.rows + list_run(s, q, k as nat, row_step(cols)).0);
                },
                Err(e) => {
                    proof {
                        assert(list_run(s, q, (k + 1) as nat, row_step(cols)).2 == Some(e@.0));
                        assert(list_run(s, q, (k + 1) as nat, row_step(cols)).0 == prev.0);
                        lemma_list_run_stops(s, q, (k + 1) as nat, nrows as nat, row_step(cols));
                    }
                    return Err(e);
                },
            }
        }
        Ok(())
    }

    fn unload(&mut self) {
        *self = DataTable::default();
    }
}

/// Loading never panics.
pub proof fn lemma_data_table_load_total(old: DataTableView, s: Seq<u8>)
    ensures
        !(data_table_load(old, s) is Panics),
{
}

} // verus!

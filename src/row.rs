//! Mapping one result row to an ordered list of named, tagged values.

use vstd::prelude::*;

use crate::value::{bool_of, date_of, i32_of, text_of, time_of, AccessError, SqlResult, Value};

verus! {

/// One column of a fetched row: its name, the backend's name for its type,
/// and the value that the driver decoded (`Null` for SQL `NULL`,
/// `UnknownType` where no decoder applied).
pub struct Column {
    pub name: String,
    pub sql_type: String,
    pub value: SqlResult,
}

pub struct ColumnView {
    pub name: Seq<char>,
    pub sql_type: Seq<char>,
    pub value: Value,
}

impl View for Column {
    type V = ColumnView;

    open spec fn view(&self) -> ColumnView {
        ColumnView { name: self.name@, sql_type: self.sql_type@, value: self.value@ }
    }
}

/// One fetched row, its columns in the order the store returned them.
pub struct Row {
    pub columns: Vec<Column>,
}

impl View for Row {
    type V = Seq<ColumnView>;

    open spec fn view(&self) -> Seq<ColumnView> {
        self.columns@.map_values(|c: Column| c@)
    }
}

impl Row {
    pub fn new() -> (r: Row)
        ensures
            r@ == Seq::<ColumnView>::empty(),
    {
        Row { columns: Vec::new() }
    }

    /// Appends a column.
    pub fn push(&mut self, name: &str, sql_type: &str, value: SqlResult)
        ensures
            final(self)@ == old(self)@.push(
                ColumnView { name: name@, sql_type: sql_type@, value: value@ },
            ),
    {
        let c = Column { name: name.to_string(), sql_type: sql_type.to_string(), value };
        self.columns.push(c);
        assert(self@ =~= old(self)@.push(c@));
    }
}

/// The backend column types that have a variant of their own.
#[derive(Clone, Copy, Debug, PartialEq, Eq, Structural)]
pub enum ColumnKind {
    Bool,
    Text,
    Int4,
    Date,
    Time,
}

/// The fixed table from the backend's type names to column kinds.
pub open spec fn kind_of_name(sql_type: Seq<char>) -> Option<ColumnKind> {
    if sql_type == "BOOL"@ {
        Some(ColumnKind::Bool)
    } else if sql_type == "TEXT"@ {
        Some(ColumnKind::Text)
    } else if sql_type == "INT4"@ {
        Some(ColumnKind::Int4)
    } else if sql_type == "DATE"@ {
        Some(ColumnKind::Date)
    } else if sql_type == "TIME"@ {
        Some(ColumnKind::Time)
    } else {
        None
    }
}

pub open spec fn has_kind(v: Value, kind: ColumnKind) -> bool {
    match kind {
        ColumnKind::Bool => v is Boolean,
        ColumnKind::Text => v is Text,
        ColumnKind::Int4 => v is Integer,
        ColumnKind::Date => v is Date,
        ColumnKind::Time => v is Time,
    }
}

/// The column's type is in the table and its value is of that type.
pub open spec fn recognized(c: ColumnView) -> bool {
    match kind_of_name(c.sql_type) {
        Some(kind) => has_kind(c.value, kind),
        None => false,
    }
}

/// A non-null column that the table cannot map.
pub open spec fn unmapped(c: ColumnView) -> bool {
    !(c.value is Null) && !recognized(c)
}

/// `Null` for a null column, the value for a recognized one, and
/// `Unrecognized` for any other.
pub open spec fn mapped_value(c: ColumnView) -> Value {
    if c.value is Null {
        Value::Null
    } else if recognized(c) {
        c.value
    } else {
        Value::Unrecognized
    }
}

/// One entry per column, in column order.
pub open spec fn mapped_row(cols: Seq<ColumnView>) -> Seq<(Seq<char>, Value)> {
    cols.map_values(|c: ColumnView| (c.name, mapped_value(c)))
}

/// The column name and type name of each unmapped column, in column order.
pub open spec fn diagnostics_of(cols: Seq<ColumnView>) -> Seq<(Seq<char>, Seq<char>)>
    decreases cols.len(),
{
    if cols.len() == 0 {
        Seq::empty()
    } else {
        let rest = diagnostics_of(cols.drop_last());
        let c = cols.last();
        if unmapped(c) {
            rest.push((c.name, c.sql_type))
        } else {
            rest
        }
    }
}

/// A column whose type has no variant: it was mapped to `UnknownType`.
pub struct Diagnostic {
    pub column: String,
    pub sql_type: String,
}

impl View for Diagnostic {
    type V = (Seq<char>, Seq<char>);

    open spec fn view(&self) -> (Seq<char>, Seq<char>) {
        (self.column@, self.sql_type@)
    }
}

pub open spec fn diagnostics_view(ds: Seq<Diagnostic>) -> Seq<(Seq<char>, Seq<char>)> {
    ds.map_values(|d: Diagnostic| d@)
}

/// The mapped row: column names with their values, in column order.
pub struct RowResult {
    entries: Vec<(String, SqlResult)>,
}

pub open spec fn entries_view(es: Seq<(String, SqlResult)>) -> Seq<(Seq<char>, Value)> {
    es.map_values(|e: (String, SqlResult)| (e.0@, e.1@))
}

impl View for RowResult {
    type V = Seq<(Seq<char>, Value)>;

    closed spec fn view(&self) -> Seq<(Seq<char>, Value)> {
        entries_view(self.entries@)
    }
}

impl RowResult {
    pub fn len(&self) -> (r: usize)
        ensures
            r == self@.len(),
    {
        self.entries.len()
    }

    /// The name of the `i`-th column.
    pub fn name(&self, i: usize) -> (r: &String)
        requires
            i < self@.len(),
        ensures
            r@ == self@[i as int].0,
    {
        &self.entries[i].0
    }

    /// The value of the `i`-th column.
    pub fn value(&self, i: usize) -> (r: &SqlResult)
        requires
            i < self@.len(),
        ensures
            r@ == self@[i as int].1,
    {
        &self.entries[i].1
    }

    /// The value of the first column with this name.
    pub fn get(&self, name: &str) -> (r: Option<&SqlResult>)
        ensures
            r is None <==> forall|i: int| 0 <= i < self@.len() ==> self@[i].0 != name@,
            r matches Some(v) ==> exists|i: int|
                0 <= i < self@.len() && self@[i].0 == name@ && v@ == self@[i].1 && forall|
                    j: int,
                | 0 <= j < i ==> self@[j].0 != name@,
    {
        let key = name.to_string();
        let mut i: usize = 0;
        while i < self.entries.len()
            invariant
                i <= self.entries@.len(),
                key@ == name@,
                self@ == entries_view(self.entries@),
                forall|j: int| 0 <= j < i ==> self@[j].0 != name@,
            decreases self.entries@.len() - i,
        {
            assert(self@[i as int] == (self.entries@[i as int].0@, self.entries@[i as int].1@));
            if self.entries[i].0 == key {
                return Some(&self.entries[i].1);
            }
            i = i + 1;
        }
        assert(self@.len() == self.entries@.len());
        None
    }
}

fn is_named(sql_type: &String, name: &str) -> (r: bool)
    ensures
        r == (sql_type@ == name@),
{
    let n = name.to_string();
    *sql_type == n
}

/// The kind that the table gives this type name, if any.
pub fn column_kind(sql_type: &String) -> (r: Option<ColumnKind>)
    ensures
        r == kind_of_name(sql_type@),
{
    if is_named(sql_type, "BOOL") {
        Some(ColumnKind::Bool)
    } else if is_named(sql_type, "TEXT") {
        Some(ColumnKind::Text)
    } else if is_named(sql_type, "INT4") {
        Some(ColumnKind::Int4)
    } else if is_named(sql_type, "DATE") {
        Some(ColumnKind::Date)
    } else if is_named(sql_type, "TIME") {
        Some(ColumnKind::Time)
    } else {
        None
    }
}

fn value_has_kind(v: &SqlResult, kind: ColumnKind) -> (r: bool)
    ensures
        r == has_kind(v@, kind),
{
    match kind {
        ColumnKind::Bool => matches!(v, SqlResult::BOOL(_)),
        ColumnKind::Text => matches!(v, SqlResult::String(_)),
        ColumnKind::Int4 => matches!(v, SqlResult::I32(_)),
        ColumnKind::Date => matches!(v, SqlResult::DATE(_)),
        ColumnKind::Time => matches!(v, SqlResult::TIME(_)),
    }
}

/// Maps one column; an unmapped one also gets a diagnostic.
fn map_column(c: &Column, diagnostics: &mut Vec<Diagnostic>) -> (r: SqlResult)
    ensures
        r@ == mapped_value(c@),
        unmapped(c@) ==> diagnostics_view(final(diagnostics)@) == diagnostics_view(
            old(diagnostics)@,
        ).push((c.name@, c.sql_type@)),
        !unmapped(c@) ==> final(diagnostics)@ == old(diagnostics)@,
{
    if matches!(c.value, SqlResult::Null) {
        return SqlResult::Null;
    }
    let known = match column_kind(&c.sql_type) {
        Some(kind) => value_has_kind(&c.value, kind),
        None => false,
    };
    if known {
        c.value.copied()
    } else {
        let d = Diagnostic { column: c.name.clone(), sql_type: c.sql_type.clone() };
        diagnostics.push(d);
        assert(diagnostics_view(diagnostics@) =~= diagnostics_view(old(diagnostics)@).push(
            (c.name@, c.sql_type@),
        ));
        SqlResult::UnknownType
    }
}

/// Maps one row: one entry per column, in column order and under the column's
/// own name. A null column gives `Null`; a column whose type is in the table
/// and whose value is of that type keeps its value; any other column gives
/// `UnknownType` and is also reported, after what `diagnostics` held, with its
/// name and type name. Mapping never fails.
pub fn map_row(row: &Row, diagnostics: &mut Vec<Diagnostic>) -> (r: RowResult)
    ensures
        r@ == mapped_row(row@),
        r@.len() == row@.len(),
        forall|i: int| 0 <= i < row@.len() ==> #[trigger] r@[i].0 == row@[i].name,
        forall|i: int|
            0 <= i < row@.len() && row@[i].value is Null ==> #[trigger] r@[i].1 == Value::Null,
        forall|i: int|
            0 <= i < row@.len() && !(row@[i].value is Null) && kind_of_name(row@[i].sql_type) is None
                ==> #[trigger] r@[i].1 == Value::Unrecognized,
        diagnostics_view(final(diagnostics)@) == diagnostics_view(old(diagnostics)@)
            + diagnostics_of(row@),
{
    let ghost start = diagnostics_view(diagnostics@);
    let mut entries: Vec<(String, SqlResult)> = Vec::new();
    let n = row.columns.len();
    let mut i: usize = 0;
    while i < n
        invariant
            n == row.columns@.len(),
            i <= n,
            entries@.len() == i,
            entries_view(entries@) == mapped_row(row@.take(i as int)),
            diagnostics_view(diagnostics@) == start + diagnostics_of(row@.take(i as int)),
        decreases n - i,
    {
        let c = &row.columns[i];
        let v = map_column(c, diagnostics);
        let ghost before = entries@;
        let name = c.name.clone();
        entries.push((name, v));
        proof {
            let next = row@.take(i + 1);
            assert(next.drop_last() =~= row@.take(i as int));
            assert(next.last() == c@);
            assert(entries@ == before.push((name, v)));
            assert forall|j: int| 0 <= j < i + 1 implies entries_view(entries@)[j] == mapped_row(
                next,
            )[j] by {
                if j < i {
                    assert(entries_view(before)[j] == mapped_row(row@.take(i as int))[j]);
                } else {
                    assert(next[j] == c@);
                }
            }
            assert(entries_view(entries@) =~= mapped_row(next));
        }
        i = i + 1;
    }
    assert(row@.take(n as int) =~= row@);
    RowResult { entries }
}

/// The diagnostics of each row in turn.
pub open spec fn diagnostics_of_rows(rows: Seq<Row>) -> Seq<(Seq<char>, Seq<char>)>
    decreases rows.len(),
{
    if rows.len() == 0 {
        Seq::empty()
    } else {
        diagnostics_of_rows(rows.drop_last()) + diagnostics_of(rows.last()@)
    }
}

/// Maps each row in turn; the results keep the rows' order.
pub fn map_rows(rows: &Vec<Row>, diagnostics: &mut Vec<Diagnostic>) -> (r: Vec<RowResult>)
    ensures
        r@.len() == rows@.len(),
        forall|i: int| 0 <= i < rows@.len() ==> #[trigger] r@[i]@ == mapped_row(rows@[i]@),
        diagnostics_view(final(diagnostics)@) == diagnostics_view(old(diagnostics)@)
            + diagnostics_of_rows(rows@),
{
    let ghost start = diagnostics_view(diagnostics@);
    let mut results: Vec<RowResult> = Vec::new();
    let n = rows.len();
    let mut i: usize = 0;
    while i < n
        invariant
            n == rows@.len(),
            i <= n,
            results@.len() == i,
            forall|j: int| 0 <= j < i ==> #[trigger] results@[j]@ == mapped_row(rows@[j]@),
            diagnostics_view(diagnostics@) == start + diagnostics_of_rows(rows@.take(i as int)),
        decreases n - i,
    {
        let r = map_row(&rows[i], diagnostics);
        results.push(r);
        proof {
            let next = rows@.take(i + 1);
            assert(next.drop_last() =~= rows@.take(i as int));
            assert(next.last() == rows@[i as int]);
        }
        i = i + 1;
    }
    assert(rows@.take(n as int) =~= rows@);
    results
}

/// A non-null column whose type is in the table, and whose value is of that
/// type, maps to its own value; the accessor for that type hands the native
/// value back unchanged.
pub proof fn lemma_accessor_round_trip(c: ColumnView)
    requires
        !(c.value is Null),
        recognized(c),
    ensures
        mapped_value(c) == c.value,
        c.value matches Value::Boolean(b) ==> bool_of(mapped_value(c)) == Ok::<
            bool,
            AccessError,
        >(b),
        c.value matches Value::Text(s) ==> text_of(mapped_value(c)) == Ok::<
            Seq<char>,
            AccessError,
        >(s),
        c.value matches Value::Integer(n) ==> i32_of(mapped_value(c)) == Ok::<i32, AccessError>(n),
        c.value matches Value::Date(d) ==> date_of(mapped_value(c)) == Ok::<
            crate::value::Date,
            AccessError,
        >(d),
        c.value matches Value::Time(t) ==> time_of(mapped_value(c)) == Ok::<
            crate::value::Time,
            AccessError,
        >(t),
{
}

/// Mapping depends on the row alone: two mappings of one row, each with the
/// entries and the diagnostics that `map_row` gives, agree on both.
pub proof fn lemma_map_row_repeatable(
    row: Row,
    first: RowResult,
    second: RowResult,
    first_diagnostics: Seq<Diagnostic>,
    second_diagnostics: Seq<Diagnostic>,
)
    requires
        first@ == mapped_row(row@),
        second@ == mapped_row(row@),
        diagnostics_view(first_diagnostics) == diagnostics_of(row@),
        diagnostics_view(second_diagnostics) == diagnostics_of(row@),
    ensures
        first@ == second@,
        diagnostics_view(first_diagnostics) == diagnostics_view(second_diagnostics),
{
}

} // verus!

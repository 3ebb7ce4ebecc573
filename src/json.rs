//! The JSON form of values, rows and query results.
//!
//! A row becomes an object whose keys are the column names in column order;
//! booleans and integers are JSON literals, text, dates and times are JSON
//! strings, and both `Null` and `UnknownType` are `null`.

use vstd::prelude::*;

use crate::row::RowResult;
use crate::text::{int_text, push_int};
use crate::value::{date_text, time_text, SqlResult, Value};

verus! {

/// What `serde_json` writes for a string: the JSON string literal, quoted and
/// escaped.
pub uninterp spec fn json_string(s: Seq<char>) -> Seq<char>;

/// Relies on `serde_json::to_string` on a `str`, which writes the JSON string
/// literal; serialising a `str` into memory does not fail.
#[verifier::external_body]
fn quote(s: &str) -> (r: String)
    ensures
        r@ == json_string(s@),
{
    serde_json::to_string(s).unwrap_or_default()
}

pub open spec fn value_json(v: Value) -> Seq<char> {
    match v {
        Value::Boolean(b) => if b {
            "true"@
        } else {
            "false"@
        },
        Value::Text(s) => json_string(s),
        Value::Integer(n) => int_text(n as int),
        Value::Date(d) => json_string(
            date_text(d.spec_year() as int, d.spec_month() as int, d.spec_day() as int),
        ),
        Value::Time(t) => json_string(
            time_text(
                t.spec_hour() as int,
                t.spec_minute() as int,
                t.spec_second() as int,
                t.spec_nano() as int,
            ),
        ),
        Value::Null => "null"@,
        Value::Unrecognized => "null"@,
    }
}

/// The parts, with a comma between each two.
pub open spec fn comma_joined(parts: Seq<Seq<char>>) -> Seq<char>
    decreases parts.len(),
{
    if parts.len() == 0 {
        Seq::empty()
    } else if parts.len() == 1 {
        parts[0]
    } else {
        comma_joined(parts.drop_last()) + ","@ + parts.last()
    }
}

pub open spec fn entry_json(e: (Seq<char>, Value)) -> Seq<char> {
    json_string(e.0) + ":"@ + value_json(e.1)
}

pub open spec fn row_json(entries: Seq<(Seq<char>, Value)>) -> Seq<char> {
    "{"@ + comma_joined(entries.map_values(|e: (Seq<char>, Value)| entry_json(e))) + "}"@
}

pub open spec fn rows_json(rows: Seq<Seq<(Seq<char>, Value)>>) -> Seq<char> {
    "["@ + comma_joined(rows.map_values(|r: Seq<(Seq<char>, Value)>| row_json(r))) + "]"@
}

pub open spec fn results_view(rows: Seq<RowResult>) -> Seq<Seq<(Seq<char>, Value)>> {
    rows.map_values(|r: RowResult| r@)
}

/// Appends the JSON form of `v`.
pub fn push_value_json(out: &mut String, v: &SqlResult)
    ensures
        final(out)@ == old(out)@ + value_json(v@),
{
    match v {
        SqlResult::BOOL(b) => {
            if *b {
                out.append("true");
            } else {
                out.append("false");
            }
        },
        SqlResult::String(s) => {
            let q = quote(s.as_str());
            out.append(q.as_str());
        },
        SqlResult::I32(n) => {
            push_int(out, *n);
        },
        SqlResult::DATE(d) => {
            let t = d.iso_text();
            let q = quote(t.as_str());
            out.append(q.as_str());
        },
        SqlResult::TIME(t) => {
            let text = t.iso_text();
            let q = quote(text.as_str());
            out.append(q.as_str());
        },
        SqlResult::Null => {
            out.append("null");
        },
        SqlResult::UnknownType => {
            out.append("null");
        },
    }
}

impl SqlResult {
    /// The JSON form of this value.
    pub fn to_json(&self) -> (r: String)
        ensures
            r@ == value_json(self@),
    {
        let mut out = String::new();
        push_value_json(&mut out, self);
        assert(out@ =~= value_json(self@));
        out
    }
}

/// Appends the JSON object of one row.
pub fn push_row_json(out: &mut String, row: &RowResult)
    ensures
        final(out)@ == old(out)@ + row_json(row@),
{
    let ghost start = out@;
    let ghost parts = row@.map_values(|e: (Seq<char>, Value)| entry_json(e));
    out.append("{");
    let n = row.len();
    let mut i: usize = 0;
    while i < n
        invariant
            n == row@.len(),
            i <= n,
            parts == row@.map_values(|e: (Seq<char>, Value)| entry_json(e)),
            out@ == start + "{"@ + comma_joined(parts.take(i as int)),
        decreases n - i,
    {
        let ghost before = out@;
        if i > 0 {
            out.append(",");
        }
        let q = quote(row.name(i).as_str());
        out.append(q.as_str());
        out.append(":");
        push_value_json(out, row.value(i));
        proof {
            let next = parts.take(i + 1);
            assert(next.drop_last() =~= parts.take(i as int));
            assert(next.last() == entry_json(row@[i as int]));
            if i == 0 {
                assert(out@ =~= before + entry_json(row@[i as int]));
                assert(comma_joined(parts.take(0)) =~= Seq::<char>::empty());
            } else {
                assert(out@ =~= before + ","@ + entry_json(row@[i as int]));
            }
            assert(out@ =~= start + "{"@ + comma_joined(next));
        }
        i = i + 1;
    }
    out.append("}");
    assert(parts.take(n as int) =~= parts);
    assert(out@ =~= start + row_json(row@));
}

impl RowResult {
    /// The JSON object of this row: column names as keys, in column order.
    pub fn to_json(&self) -> (r: String)
        ensures
            r@ == row_json(self@),
    {
        let mut out = String::new();
        push_row_json(&mut out, self);
        assert(out@ =~= row_json(self@));
        out
    }
}

/// The JSON array of the rows' objects, in row order.
pub fn rows_to_json(rows: &Vec<RowResult>) -> (r: String)
    ensures
        r@ == rows_json(results_view(rows@)),
{
    let ghost parts = results_view(rows@).map_values(
        |r: Seq<(Seq<char>, Value)>| row_json(r),
    );
    let mut out = String::new();
    out.append("[");
    let n = rows.len();
    let mut i: usize = 0;
    while i < n
        invariant
            n == rows@.len(),
            i <= n,
            parts == results_view(rows@).map_values(|r: Seq<(Seq<char>, Value)>| row_json(r)),
            out@ == "["@ + comma_joined(parts.take(i as int)),
        decreases n - i,
    {
        let ghost before = out@;
        if i > 0 {
            out.append(",");
        }
        push_row_json(&mut out, &rows[i]);
        proof {
            let next = parts.take(i + 1);
            assert(next.drop_last() =~= parts.take(i as int));
            assert(next.last() == row_json(rows@[i as int]@));
            if i == 0 {
                assert(comma_joined(parts.take(0)) =~= Seq::<char>::empty());
                assert(out@ =~= before + row_json(rows@[i as int]@));
            } else {
                assert(out@ =~= before + ","@ + row_json(rows@[i as int]@));
            }
            assert(out@ =~= "["@ + comma_joined(next));
        }
        i = i + 1;
    }
    out.append("]");
    assert(parts.take(n as int) =~= parts);
    assert(out@ =~= rows_json(results_view(rows@)));
    out
}

} // verus!

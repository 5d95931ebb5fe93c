//! The type-probing cascade: the ordered, first-match-wins list of decode
//! attempts each backend applies per cell, and the verified conversion of a
//! probe's outcome into the uniform cell value.
//!
//! The shell performs the fallible driver probes themselves; it walks the
//! order given here, stops at the first probe the driver accepts, and hands
//! the probed value back as a [`ProbeOutcome`] of plain values.

use vstd::prelude::*;
use vstd::string::StringExecFns;

use crate::binary::{binary_text_model, decode_binary};
use crate::render::{pad2_of, pad4_of, push_pad2, push_pad4};
use crate::values::{CellValue, QueryResult, ValueModel};

verus! {

/// One rung of a backend's type-probing cascade.
#[derive(Debug, Clone, Copy, PartialEq, Eq, Structural)]
pub enum ProbeType {
    Text,
    /// Timestamp without zone.
    DateTimeNaive,
    /// Timestamp with zone, normalized to UTC.
    DateTimeUtc,
    DateOnly,
    TimeOnly,
    Json,
    Bytes,
    Int8,
    Int4,
    Int2,
    Int1,
    UInt8,
    UInt4,
    UInt2,
    UInt1,
    Double,
    Float,
    Bool,
}

/// The relational-typed backend's cascade, in probe order.
pub open spec fn postgres_cascade_order() -> Seq<ProbeType> {
    seq![
        ProbeType::Text,
        ProbeType::DateTimeNaive,
        ProbeType::DateTimeUtc,
        ProbeType::DateOnly,
        ProbeType::TimeOnly,
        ProbeType::Json,
        ProbeType::Bytes,
        ProbeType::Int8,
        ProbeType::Int4,
        ProbeType::Int2,
        ProbeType::Double,
        ProbeType::Float,
        ProbeType::Bool,
    ]
}

/// The flexible-typed backend's cascade: as the relational-typed one, but
/// with the wider signed and unsigned integer ladder and no structured rung.
pub open spec fn mysql_cascade_order() -> Seq<ProbeType> {
    seq![
        ProbeType::Text,
        ProbeType::DateTimeNaive,
        ProbeType::DateOnly,
        ProbeType::TimeOnly,
        ProbeType::DateTimeUtc,
        ProbeType::Bytes,
        ProbeType::Int8,
        ProbeType::Int4,
        ProbeType::Int2,
        ProbeType::Int1,
        ProbeType::UInt8,
        ProbeType::UInt4,
        ProbeType::UInt2,
        ProbeType::UInt1,
        ProbeType::Double,
        ProbeType::Float,
        ProbeType::Bool,
    ]
}

/// The dynamically-typed backend's cascade, ordered by expected frequency;
/// it has no timestamp rungs on purpose.
pub open spec fn sqlite_cascade_order() -> Seq<ProbeType> {
    seq![
        ProbeType::Text,
        ProbeType::Int8,
        ProbeType::Int4,
        ProbeType::Double,
        ProbeType::Bool,
        ProbeType::Bytes,
    ]
}

pub fn postgres_cascade() -> (r: Vec<ProbeType>)
    ensures
        r@ == postgres_cascade_order(),
{
    let mut r: Vec<ProbeType> = Vec::new();
    r.push(ProbeType::Text);
    r.push(ProbeType::DateTimeNaive);
    r.push(ProbeType::DateTimeUtc);
    r.push(ProbeType::DateOnly);
    r.push(ProbeType::TimeOnly);
    r.push(ProbeType::Json);
    r.push(ProbeType::Bytes);
    r.push(ProbeType::Int8);
    r.push(ProbeType::Int4);
    r.push(ProbeType::Int2);
    r.push(ProbeType::Double);
    r.push(ProbeType::Float);
    r.push(ProbeType::Bool);
    proof {
        assert(r@ =~= postgres_cascade_order());
    }
    r
}

pub fn mysql_cascade() -> (r: Vec<ProbeType>)
    ensures
        r@ == mysql_cascade_order(),
{
    let mut r: Vec<ProbeType> = Vec::new();
    r.push(ProbeType::Text);
    r.push(ProbeType::DateTimeNaive);
    r.push(ProbeType::DateOnly);
    r.push(ProbeType::TimeOnly);
    r.push(ProbeType::DateTimeUtc);
    r.push(ProbeType::Bytes);
    r.push(ProbeType::Int8);
    r.push(ProbeType::Int4);
    r.push(ProbeType::Int2);
    r.push(ProbeType::Int1);
    r.push(ProbeType::UInt8);
    r.push(ProbeType::UInt4);
    r.push(ProbeType::UInt2);
    r.push(ProbeType::UInt1);
    r.push(ProbeType::Double);
    r.push(ProbeType::Float);
    r.push(ProbeType::Bool);
    proof {
        assert(r@ =~= mysql_cascade_order());
    }
    r
}

pub fn sqlite_cascade() -> (r: Vec<ProbeType>)
    ensures
        r@ == sqlite_cascade_order(),
{
    let mut r: Vec<ProbeType> = Vec::new();
    r.push(ProbeType::Text);
    r.push(ProbeType::Int8);
    r.push(ProbeType::Int4);
    r.push(ProbeType::Double);
    r.push(ProbeType::Bool);
    r.push(ProbeType::Bytes);
    proof {
        assert(r@ =~= sqlite_cascade_order());
    }
    r
}

/// A date and time broken into plain calendar fields.
#[derive(Debug, Clone, Copy, PartialEq, Eq, Structural)]
pub struct DateTimeParts {
    pub year: u32,
    pub month: u8,
    pub day: u8,
    pub hour: u8,
    pub minute: u8,
    pub second: u8,
}

/// The `YYYY-MM-DD` rendering of the date fields.
pub open spec fn date_text(d: DateTimeParts) -> Seq<char> {
    pad4_of(d.year as int) + seq!['-'] + pad2_of(d.month as int) + seq!['-'] + pad2_of(
        d.day as int,
    )
}

/// The `HH:MM:SS` rendering of the time fields.
pub open spec fn time_text(d: DateTimeParts) -> Seq<char> {
    pad2_of(d.hour as int) + seq![':'] + pad2_of(d.minute as int) + seq![':'] + pad2_of(
        d.second as int,
    )
}

/// The `YYYY-MM-DD HH:MM:SS` rendering.
pub open spec fn datetime_text(d: DateTimeParts) -> Seq<char> {
    date_text(d) + seq![' '] + time_text(d)
}

/// The zone-carrying rendering: the timestamp followed by ` UTC`.
pub open spec fn datetime_utc_text(d: DateTimeParts) -> Seq<char> {
    datetime_text(d) + " UTC"@
}

/// Renders the date fields as `YYYY-MM-DD`.
pub fn render_date(d: DateTimeParts) -> (r: String)
    ensures
        r@ == date_text(d),
{
    proof {
        reveal_strlit("-");
    }
    let mut s = String::new();
    push_pad4(&mut s, d.year as u64);
    s.append("-");
    push_pad2(&mut s, d.month as u64);
    s.append("-");
    push_pad2(&mut s, d.day as u64);
    proof {
        assert(s@ =~= date_text(d));
    }
    s
}

/// Renders the time fields as `HH:MM:SS`.
pub fn render_time(d: DateTimeParts) -> (r: String)
    ensures
        r@ == time_text(d),
{
    proof {
        reveal_strlit(":");
    }
    let mut s = String::new();
    push_pad2(&mut s, d.hour as u64);
    s.append(":");
    push_pad2(&mut s, d.minute as u64);
    s.append(":");
    push_pad2(&mut s, d.second as u64);
    proof {
        assert(s@ =~= time_text(d));
    }
    s
}

/// Renders the fields as `YYYY-MM-DD HH:MM:SS`.
pub fn render_datetime(d: DateTimeParts) -> (r: String)
    ensures
        r@ == datetime_text(d),
{
    proof {
        reveal_strlit(" ");
    }
    let mut s = render_date(d);
    s.append(" ");
    let t = render_time(d);
    s.append(t.as_str());
    proof {
        assert(s@ =~= datetime_text(d));
    }
    s
}

/// What the first successful probe of a cell produced, as plain values.
#[derive(Debug, Clone, PartialEq, Eq)]
pub enum ProbeOutcome {
    /// A probe matched the column type and the cell held NULL.
    Null,
    Text(String),
    DateTime(DateTimeParts),
    /// A zone-carrying timestamp, already normalized to UTC.
    DateTimeUtc(DateTimeParts),
    Date(DateTimeParts),
    Time(DateTimeParts),
    /// A structured value, as its serialized text.
    Json(String),
    Bytes(Vec<u8>),
    Int(i64),
    UInt(u64),
    /// The bit pattern of a finite double-precision value.
    Float(u64),
    Bool(bool),
    /// No probe matched; the driver-reported column type name.
    Unsupported(String),
}

/// The uniform cell value a probe outcome decodes to.
pub open spec fn decoded_model(o: ProbeOutcome) -> ValueModel {
    match o {
        ProbeOutcome::Null => ValueModel::Null,
        ProbeOutcome::Text(s) => ValueModel::Text(s@),
        ProbeOutcome::DateTime(d) => ValueModel::Text(datetime_text(d)),
        ProbeOutcome::DateTimeUtc(d) => ValueModel::Text(datetime_utc_text(d)),
        ProbeOutcome::Date(d) => ValueModel::Text(date_text(d)),
        ProbeOutcome::Time(d) => ValueModel::Text(time_text(d)),
        ProbeOutcome::Json(s) => ValueModel::Json(s@),
        ProbeOutcome::Bytes(b) => ValueModel::Text(binary_text_model(b@)),
        ProbeOutcome::Int(n) => ValueModel::Int(n as int),
        ProbeOutcome::UInt(n) => ValueModel::UInt(n as int),
        ProbeOutcome::Float(bits) => ValueModel::Float(bits),
        ProbeOutcome::Bool(b) => ValueModel::Bool(b),
        ProbeOutcome::Unsupported(t) => ValueModel::Text("<unsupported: "@ + t@ + ">"@),
    }
}

/// Decodes one probed cell into the uniform value; total, so a decode
/// soft-failure can never fail a row or a query.
pub fn decode_outcome(o: &ProbeOutcome) -> (r: CellValue)
    ensures
        r@ == decoded_model(*o),
{
    match o {
        ProbeOutcome::Null => CellValue::Null,
        ProbeOutcome::Text(s) => CellValue::Text(s.clone()),
        ProbeOutcome::DateTime(d) => CellValue::Text(render_datetime(*d)),
        ProbeOutcome::DateTimeUtc(d) => {
            proof {
                reveal_strlit(" UTC");
            }
            let mut s = render_datetime(*d);
            s.append(" UTC");
            CellValue::Text(s)
        },
        ProbeOutcome::Date(d) => CellValue::Text(render_date(*d)),
        ProbeOutcome::Time(d) => CellValue::Text(render_time(*d)),
        ProbeOutcome::Json(s) => CellValue::Json(s.clone()),
        ProbeOutcome::Bytes(b) => CellValue::Text(decode_binary(b)),
        ProbeOutcome::Int(n) => CellValue::Int(*n),
        ProbeOutcome::UInt(n) => CellValue::UInt(*n),
        ProbeOutcome::Float(bits) => CellValue::Float(*bits),
        ProbeOutcome::Bool(b) => CellValue::Bool(*b),
        ProbeOutcome::Unsupported(t) => {
            proof {
                reveal_strlit("<unsupported: ");
                reveal_strlit(">");
            }
            let mut s = String::from_str("<unsupported: ");
            s.append(t.as_str());
            s.append(">");
            proof {
                assert(s@ =~= "<unsupported: "@ + t@ + ">"@);
            }
            CellValue::Text(s)
        },
    }
}

/// Decodes one probed row, cell by cell, preserving order and length.
pub fn decode_row(outcomes: &Vec<ProbeOutcome>) -> (r: Vec<CellValue>)
    ensures
        r@.len() == outcomes@.len(),
        forall|i: int| 0 <= i < r@.len() ==> (#[trigger] r@[i])@ == decoded_model(outcomes@[i]),
{
    let mut r: Vec<CellValue> = Vec::new();
    let mut i: usize = 0;
    while i < outcomes.len()
        invariant
            i <= outcomes@.len(),
            r@.len() == i,
            forall|j: int| 0 <= j < i ==> (#[trigger] r@[j])@ == decoded_model(outcomes@[j]),
        decreases outcomes@.len() - i,
    {
        r.push(decode_outcome(&outcomes[i]));
        i = i + 1;
    }
    r
}

/// Builds the uniform result from the probed rows: decodes every cell,
/// keeps row and column order, and reports zero affected rows.
///
/// Alignment of each raw row with the column list is the backend driver's
/// reported shape; given it, the result satisfies the model's invariant
/// whether or not any row came back, so an empty result is a success, never
/// an error.
pub fn assemble_query_result(
    columns: Vec<String>,
    raw_rows: &Vec<Vec<ProbeOutcome>>,
    execution_time_ms: u128,
) -> (r: QueryResult)
    requires
        forall|i: int|
            0 <= i < raw_rows@.len() ==> (#[trigger] raw_rows@[i])@.len() == columns@.len(),
    ensures
        r.wf(),
        r.columns == columns,
        r.execution_time_ms == execution_time_ms,
        r.affected_rows == 0,
        r.rows@.len() == raw_rows@.len(),
        forall|i: int, j: int|
            0 <= i < r.rows@.len() && 0 <= j < (#[trigger] r.rows@[i])@.len() ==> (
            #[trigger] r.rows@[i]@[j])@ == decoded_model(raw_rows@[i]@[j]),
{
    let mut rows: Vec<Vec<CellValue>> = Vec::new();
    let mut i: usize = 0;
    while i < raw_rows.len()
        invariant
            i <= raw_rows@.len(),
            rows@.len() == i,
            forall|k: int|
                0 <= k < raw_rows@.len() ==> (#[trigger] raw_rows@[k])@.len() == columns@.len(),
            forall|k: int| 0 <= k < i ==> (#[trigger] rows@[k])@.len() == columns@.len(),
            forall|k: int, j: int|
                0 <= k < i && 0 <= j < (#[trigger] rows@[k])@.len() ==> (
                #[trigger] rows@[k]@[j])@ == decoded_model(raw_rows@[k]@[j]),
        decreases raw_rows@.len() - i,
    {
        rows.push(decode_row(&raw_rows[i]));
        i = i + 1;
    }
    QueryResult { columns, rows, execution_time_ms, affected_rows: 0 }
}

} // verus!

//! Rendering one cell as text, by the logical type of its column.
//!
//! Rendering is total: a cell that cannot be rendered by its column's type gives the
//! sentinel `NULL`, never a failure.

use arrow::datatypes::{i256, Decimal128Type, Decimal256Type, DecimalType};
use vstd::prelude::*;
use vstd::utf8::{decode_utf8, valid_utf8};
use crate::batch::{CellValue, Column, KeyWidth, TimeUnit, TypeTag};
use crate::calendar::{
    civil_from_seconds, rfc3339, FIRST_DAY, LAST_DAY, SECONDS_PER_DAY,
};
use crate::text::{digits_of, i64_text, int_text, u64_text};

verus! {

/// What `String::from_utf8_lossy` makes of `bytes`: their decoding as UTF-8, with
/// U+FFFD in place of what is no valid UTF-8.
pub uninterp spec fn lossy_text(bytes: Seq<u8>) -> Seq<char>;

/// What arrow's `Decimal128Type::format_decimal` writes for the unscaled `value` of a
/// decimal type with the given precision and scale.
pub uninterp spec fn decimal128_text(value: i128, precision: u8, scale: i8) -> Seq<char>;

/// What arrow's `Decimal256Type::format_decimal` writes for the unscaled value whose
/// two's complement has the low 128 bits `low` and the high 128 bits `high`, of a
/// decimal type with the given precision and scale.
pub uninterp spec fn decimal256_text(low: u128, high: i128, precision: u8, scale: i8) -> Seq<char>;

/// Decodes bytes as text, lossily.
///
/// Trusted: the body is `String::from_utf8_lossy`, made an owned `String`. The result
/// is named `lossy_text`; of it the standard library documents that valid UTF-8 is
/// decoded unchanged, which is all that is claimed besides.
#[verifier::external_body]
fn decode_lossy(bytes: &Vec<u8>) -> (text: String)
    ensures
        text@ == lossy_text(bytes@),
        valid_utf8(bytes@) ==> text@ == decode_utf8(bytes@),
{
    String::from_utf8_lossy(bytes).into_owned()
}

/// Writes a 128-bit decimal.
///
/// Trusted: the body is arrow's `Decimal128Type::format_decimal`, whose result is named
/// `decimal128_text`. That function slices the digits by `precision` and `scale` and
/// panics where the scale exceeds the precision, which `requires` leaves out.
#[verifier::external_body]
fn write_decimal128(value: i128, precision: u8, scale: i8) -> (text: String)
    requires
        scale as int <= precision as int,
    ensures
        text@ == decimal128_text(value, precision, scale),
{
    Decimal128Type::format_decimal(value, precision, scale)
}

/// Writes a 256-bit decimal.
///
/// Trusted: the body is arrow's `Decimal256Type::format_decimal`, on the value that
/// `i256::from_parts` makes of the two halves; its result is named `decimal256_text`.
/// That function slices the digits by `precision` and `scale` and panics where the
/// scale exceeds the precision, which `requires` leaves out.
#[verifier::external_body]
fn write_decimal256(low: u128, high: i128, precision: u8, scale: i8) -> (text: String)
    requires
        scale as int <= precision as int,
    ensures
        text@ == decimal256_text(low, high, precision, scale),
{
    Decimal256Type::format_decimal(i256::from_parts(low, high), precision, scale)
}

/// How the cells of a column are rendered. Each logical type has one policy.
#[derive(Clone, Copy, Debug, PartialEq, Eq, Structural)]
pub enum Policy {
    /// The decimal notation of the cell's signed integer.
    SignedDecimal,
    /// The decimal notation of the cell's unsigned integer.
    UnsignedDecimal,
    /// `true` or `false`.
    TruthValue,
    /// The cell's text as it is.
    Verbatim,
    /// The RFC 3339 notation in UTC of the instant that the cell counts in the given
    /// unit since the epoch; fractions of a second are dropped.
    Instant(TimeUnit),
    /// The RFC 3339 notation in UTC of midnight of the day that the cell counts since
    /// the epoch.
    Day,
    /// The cell's bytes decoded as UTF-8, lossily.
    LossyText,
    /// The millisecond component of a day-time interval, in decimal notation.
    Milliseconds,
    /// The nanosecond component of a month-day-nanosecond interval, in decimal
    /// notation.
    Nanoseconds,
    /// The decimal of the given precision and scale, written as arrow writes it.
    Decimal128(u8, i8),
    /// The decimal of the given precision and scale, written as arrow writes it.
    Decimal256(u8, i8),
    /// The sentinel, whatever the cell holds.
    Sentinel,
}

/// The text that stands for a null cell, and for any cell that cannot be rendered.
pub open spec fn sentinel() -> Seq<char> {
    "NULL"@
}

/// The policy by which cells of the logical type `tag` are rendered.
///
/// Structs are not expanded and render as the sentinel. The cells of dictionary- and
/// run-end-encoded columns are resolved first (see `cell_text`) and then rendered by
/// the type of what they resolve to.
pub open spec fn policy_of(tag: TypeTag) -> Policy {
    match tag {
        TypeTag::Boolean => Policy::TruthValue,
        TypeTag::Int8 => Policy::SignedDecimal,
        TypeTag::Int16 => Policy::SignedDecimal,
        TypeTag::Int32 => Policy::SignedDecimal,
        TypeTag::Int64 => Policy::SignedDecimal,
        TypeTag::UInt8 => Policy::UnsignedDecimal,
        TypeTag::UInt16 => Policy::UnsignedDecimal,
        TypeTag::UInt32 => Policy::UnsignedDecimal,
        TypeTag::UInt64 => Policy::UnsignedDecimal,
        TypeTag::Float16 => Policy::Verbatim,
        TypeTag::Float32 => Policy::Verbatim,
        TypeTag::Float64 => Policy::Verbatim,
        TypeTag::Timestamp(unit) => Policy::Instant(unit),
        TypeTag::Date32 => Policy::Day,
        TypeTag::Date64 => Policy::Day,
        TypeTag::Time32(_) => Policy::SignedDecimal,
        TypeTag::Time64(_) => Policy::SignedDecimal,
        TypeTag::Duration(_) => Policy::SignedDecimal,
        TypeTag::IntervalYearMonth => Policy::SignedDecimal,
        TypeTag::IntervalDayTime => Policy::Milliseconds,
        TypeTag::IntervalMonthDayNano => Policy::Nanoseconds,
        TypeTag::Binary => Policy::LossyText,
        TypeTag::FixedSizeBinary => Policy::LossyText,
        TypeTag::LargeBinary => Policy::LossyText,
        TypeTag::BinaryView => Policy::LossyText,
        TypeTag::Utf8 => Policy::Verbatim,
        TypeTag::LargeUtf8 => Policy::Verbatim,
        TypeTag::Utf8View => Policy::Verbatim,
        TypeTag::List => Policy::Verbatim,
        TypeTag::LargeList => Policy::Verbatim,
        TypeTag::ListView => Policy::Verbatim,
        TypeTag::LargeListView => Policy::Verbatim,
        TypeTag::FixedSizeList => Policy::Verbatim,
        TypeTag::Mapping => Policy::Verbatim,
        TypeTag::Union => Policy::Verbatim,
        TypeTag::Decimal128(precision, scale) => Policy::Decimal128(precision, scale),
        TypeTag::Decimal256(precision, scale) => Policy::Decimal256(precision, scale),
        TypeTag::Null => Policy::Sentinel,
        TypeTag::Struct => Policy::Sentinel,
        TypeTag::Dictionary(_) => Policy::Sentinel,
        TypeTag::RunEndEncoded(_) => Policy::Sentinel,
        TypeTag::Unknown => Policy::Sentinel,
    }
}

/// The number of `unit`s in a second.
pub open spec fn units_per_second(unit: TimeUnit) -> int {
    match unit {
        TimeUnit::Second => 1,
        TimeUnit::Millisecond => 1_000,
        TimeUnit::Microsecond => 1_000_000,
        TimeUnit::Nanosecond => 1_000_000_000,
    }
}

/// The quotient of `value` by a positive `divisor`, rounded towards zero.
pub open spec fn quotient_towards_zero(value: int, divisor: int) -> int {
    if value >= 0 {
        value / divisor
    } else {
        -((-value) / divisor)
    }
}

/// The RFC 3339 notation of the instant `seconds`, or the sentinel for an instant
/// outside the years 0000 to 9999.
pub open spec fn instant_text(seconds: int) -> Seq<char> {
    match rfc3339(seconds) {
        Some(text) => text,
        None => sentinel(),
    }
}

/// The text of a cell that holds `value`, rendered by `policy`. A null cell renders as
/// the sentinel under every policy, and so does a value of another kind than the policy
/// renders.
pub open spec fn rendered(policy: Policy, value: CellValue) -> Seq<char> {
    match value {
        CellValue::Null => sentinel(),
        CellValue::Boolean(b) => match policy {
            Policy::TruthValue => if b {
                "true"@
            } else {
                "false"@
            },
            _ => sentinel(),
        },
        CellValue::Signed(v) => match policy {
            Policy::SignedDecimal => int_text(v as int),
            Policy::Instant(unit) => instant_text(
                quotient_towards_zero(v as int, units_per_second(unit)),
            ),
            Policy::Day => instant_text(v * SECONDS_PER_DAY),
            _ => sentinel(),
        },
        CellValue::Unsigned(v) => match policy {
            Policy::UnsignedDecimal => digits_of(v as nat),
            _ => sentinel(),
        },
        CellValue::Text(s) => match policy {
            Policy::Verbatim => s@,
            _ => sentinel(),
        },
        CellValue::Bytes(b) => match policy {
            Policy::LossyText => lossy_text(b@),
            _ => sentinel(),
        },
        CellValue::DayTime { days, milliseconds } => match policy {
            Policy::Milliseconds => int_text(milliseconds as int),
            _ => sentinel(),
        },
        CellValue::MonthDayNano { months, days, nanoseconds } => match policy {
            Policy::Nanoseconds => int_text(nanoseconds as int),
            _ => sentinel(),
        },
        CellValue::Wide(v) => match policy {
            Policy::Decimal128(precision, scale) => if scale as int <= precision as int {
                decimal128_text(v, precision, scale)
            } else {
                sentinel()
            },
            _ => sentinel(),
        },
        CellValue::Wider { low, high } => match policy {
            Policy::Decimal256(precision, scale) => if scale as int <= precision as int {
                decimal256_text(low, high, precision, scale)
            } else {
                sentinel()
            },
            _ => sentinel(),
        },
    }
}

/// The text of a cell of a column of logical type `tag` that holds `value`.
pub open spec fn value_text(tag: TypeTag, value: CellValue) -> Seq<char> {
    rendered(policy_of(tag), value)
}

/// The position in a dictionary that the key `key` names, if it names one.
pub open spec fn key_position(key: CellValue) -> Option<int> {
    match key {
        CellValue::Signed(k) => if k >= 0 {
            Some(k as int)
        } else {
            None
        },
        CellValue::Unsigned(k) => Some(k as int),
        _ => None,
    }
}

/// The first run that ends after `position`: the least `j` with
/// `run_ends[j] > position`, or the number of runs where there is none.
pub open spec fn run_of(run_ends: Seq<u64>, position: int) -> int
    decreases run_ends.len(),
{
    if run_ends.len() == 0 {
        0
    } else if run_ends[0] > position {
        0
    } else {
        1 + run_of(run_ends.drop_first(), position)
    }
}

/// Whether keys of this type are resolved.
pub open spec fn key_supported(width: KeyWidth) -> bool {
    width != KeyWidth::Other
}

/// The text of the cell at row `row` of `column`, a column of logical type `tag`.
///
/// A plain column renders its cell by `tag`. A dictionary-encoded column whose keys are
/// of a supported type renders the value that the row's key names, and a
/// run-end-encoded column whose run ends are of a supported type renders the value of
/// the run that the row's position lies in, each by the type of its values. Everything else, a row outside the column too, renders as the
/// sentinel.
pub open spec fn cell_text(column: Column, tag: TypeTag, row: int) -> Seq<char> {
    match column {
        Column::Plain { cells } => if 0 <= row < cells@.len() {
            value_text(tag, cells@[row])
        } else {
            sentinel()
        },
        Column::Dictionary { keys, values, value_type } => match tag {
            TypeTag::Dictionary(width) => if key_supported(width) && 0 <= row < keys@.len() {
                match key_position(keys@[row]) {
                    Some(k) => if k < values@.len() {
                        value_text(value_type, values@[k])
                    } else {
                        sentinel()
                    },
                    None => sentinel(),
                }
            } else {
                sentinel()
            },
            _ => sentinel(),
        },
        Column::RunEnd { run_ends, values, value_type, offset, rows } => match tag {
            TypeTag::RunEndEncoded(width) => if key_supported(width) && 0 <= row < rows {
                let run = run_of(run_ends@, offset + row);
                if run < run_ends@.len() && run < values@.len() {
                    value_text(value_type, values@[run])
                } else {
                    sentinel()
                }
            } else {
                sentinel()
            },
            _ => sentinel(),
        },
    }
}

/// Whether the cell at row `row` of `column` is null: the cell itself in a plain
/// column, the row's key in a dictionary-encoded one, and the value of the row's run in
/// a run-end-encoded one.
pub open spec fn null_at(column: Column, row: int) -> bool {
    match column {
        Column::Plain { cells } => 0 <= row < cells@.len() && cells@[row] is Null,
        Column::Dictionary { keys, values, value_type } => 0 <= row < keys@.len()
            && keys@[row] is Null,
        Column::RunEnd { run_ends, values, value_type, offset, rows } => {
            &&& 0 <= row < rows
            &&& run_of(run_ends@, offset + row) < run_ends@.len()
            &&& run_of(run_ends@, offset + row) < values@.len()
            &&& values@[run_of(run_ends@, offset + row)] is Null
        },
    }
}

/// The policy by which cells of the logical type `tag` are rendered.
pub fn policy(tag: TypeTag) -> (p: Policy)
    ensures
        p == policy_of(tag),
{
    match tag {
        TypeTag::Boolean => Policy::TruthValue,
        TypeTag::Int8 | TypeTag::Int16 | TypeTag::Int32 | TypeTag::Int64 => Policy::SignedDecimal,
        TypeTag::UInt8 | TypeTag::UInt16 | TypeTag::UInt32 | TypeTag::UInt64 => {
            Policy::UnsignedDecimal
        },
        TypeTag::Float16 | TypeTag::Float32 | TypeTag::Float64 => Policy::Verbatim,
        TypeTag::Timestamp(unit) => Policy::Instant(unit),
        TypeTag::Date32 | TypeTag::Date64 => Policy::Day,
        TypeTag::Time32(_) | TypeTag::Time64(_) | TypeTag::Duration(_) => Policy::SignedDecimal,
        TypeTag::IntervalYearMonth => Policy::SignedDecimal,
        TypeTag::IntervalDayTime => Policy::Milliseconds,
        TypeTag::IntervalMonthDayNano => Policy::Nanoseconds,
        TypeTag::Binary | TypeTag::FixedSizeBinary | TypeTag::LargeBinary | TypeTag::BinaryView => {
            Policy::LossyText
        },
        TypeTag::Utf8 | TypeTag::LargeUtf8 | TypeTag::Utf8View => Policy::Verbatim,
        TypeTag::List | TypeTag::LargeList | TypeTag::ListView | TypeTag::LargeListView
        | TypeTag::FixedSizeList | TypeTag::Mapping | TypeTag::Union => Policy::Verbatim,
        TypeTag::Decimal128(precision, scale) => Policy::Decimal128(precision, scale),
        TypeTag::Decimal256(precision, scale) => Policy::Decimal256(precision, scale),
        TypeTag::Null | TypeTag::Struct | TypeTag::Dictionary(_) | TypeTag::RunEndEncoded(_)
        | TypeTag::Unknown => Policy::Sentinel,
    }
}

/// The sentinel as a string.
pub fn sentinel_text() -> (text: String)
    ensures
        text@ == sentinel(),
{
    "NULL".to_owned()
}

/// The number of `unit`s in a second.
fn per_second(unit: TimeUnit) -> (n: i128)
    ensures
        n == units_per_second(unit),
{
    match unit {
        TimeUnit::Second => 1,
        TimeUnit::Millisecond => 1_000,
        TimeUnit::Microsecond => 1_000_000,
        TimeUnit::Nanosecond => 1_000_000_000,
    }
}

/// Renders the instant `seconds`.
fn format_instant(seconds: i64) -> (text: String)
    ensures
        text@ == instant_text(seconds as int),
{
    match civil_from_seconds(seconds) {
        Some(time) => time.to_rfc3339(),
        None => sentinel_text(),
    }
}

/// Renders a cell that holds `value` by `policy`.
pub fn render(policy: Policy, value: &CellValue) -> (text: String)
    ensures
        text@ == rendered(policy, *value),
        policy == Policy::LossyText ==> (value matches CellValue::Bytes(bytes) ==> (valid_utf8(
            bytes@,
        ) ==> text@ == decode_utf8(bytes@))),
{
    match value {
        CellValue::Null => sentinel_text(),
        CellValue::Boolean(b) => match policy {
            Policy::TruthValue => if *b {
                "true".to_owned()
            } else {
                "false".to_owned()
            },
            _ => sentinel_text(),
        },
        CellValue::Signed(v) => match policy {
            Policy::SignedDecimal => i64_text(*v),
            Policy::Instant(unit) => {
                let wide: i128 = *v as i128;
                let divisor: i128 = per_second(unit);
                let seconds: i128 = if wide >= 0 {
                    wide / divisor
                } else {
                    -((-wide) / divisor)
                };
                assert(seconds == quotient_towards_zero(*v as int, units_per_second(unit)));
                assert(i64::MIN <= seconds <= i64::MAX) by (nonlinear_arith)
                    requires
                        seconds == quotient_towards_zero(wide as int, divisor as int),
                        i64::MIN <= wide <= i64::MAX,
                        divisor >= 1,
                ;
                format_instant(seconds as i64)
            },
            Policy::Day => {
                if FIRST_DAY <= *v && *v <= LAST_DAY {
                    format_instant(*v * SECONDS_PER_DAY)
                } else {
                    sentinel_text()
                }
            },
            _ => sentinel_text(),
        },
        CellValue::Unsigned(v) => match policy {
            Policy::UnsignedDecimal => u64_text(*v),
            _ => sentinel_text(),
        },
        CellValue::Text(s) => match policy {
            Policy::Verbatim => s.clone(),
            _ => sentinel_text(),
        },
        CellValue::Bytes(b) => match policy {
            Policy::LossyText => decode_lossy(b),
            _ => sentinel_text(),
        },
        CellValue::DayTime { days, milliseconds } => match policy {
            Policy::Milliseconds => i64_text(*milliseconds as i64),
            _ => sentinel_text(),
        },
        CellValue::MonthDayNano { months, days, nanoseconds } => match policy {
            Policy::Nanoseconds => i64_text(*nanoseconds),
            _ => sentinel_text(),
        },
        CellValue::Wide(v) => match policy {
            Policy::Decimal128(precision, scale) => if scale as i16 <= precision as i16 {
                write_decimal128(*v, precision, scale)
            } else {
                sentinel_text()
            },
            _ => sentinel_text(),
        },
        CellValue::Wider { low, high } => match policy {
            Policy::Decimal256(precision, scale) => if scale as i16 <= precision as i16 {
                write_decimal256(*low, *high, precision, scale)
            } else {
                sentinel_text()
            },
            _ => sentinel_text(),
        },
    }
}

/// Renders a cell of a column of logical type `tag` that holds `value`.
pub fn format_value(tag: TypeTag, value: &CellValue) -> (text: String)
    ensures
        text@ == value_text(tag, *value),
        policy_of(tag) == Policy::LossyText ==> (value matches CellValue::Bytes(bytes) ==> (
        valid_utf8(bytes@) ==> text@ == decode_utf8(bytes@))),
{
    render(policy(tag), value)
}

/// Whether keys of this type are resolved.
fn supported(width: KeyWidth) -> (yes: bool)
    ensures
        yes == key_supported(width),
{
    match width {
        KeyWidth::Other => false,
        _ => true,
    }
}

/// The first run that ends after `position`.
fn find_run(run_ends: &Vec<u64>, position: u128) -> (run: usize)
    ensures
        run == run_of(run_ends@, position as int),
        run <= run_ends@.len(),
{
    let mut j: usize = 0;
    assert(run_ends@.skip(0) =~= run_ends@);
    while j < run_ends.len() && run_ends[j] as u128 <= position
        invariant
            j <= run_ends@.len(),
            run_of(run_ends@, position as int) == j + run_of(
                run_ends@.skip(j as int),
                position as int,
            ),
        decreases run_ends@.len() - j,
    {
        assert(run_ends@.skip(j as int).drop_first() =~= run_ends@.skip(j as int + 1));
        j = j + 1;
    }
    j
}

/// Renders the cell at row `row` of `column`, a column of logical type `tag`.
pub fn format_cell(column: &Column, tag: TypeTag, row: usize) -> (text: String)
    ensures
        text@ == cell_text(*column, tag, row as int),
{
    match column {
        Column::Plain { cells } => if row < cells.len() {
            format_value(tag, &cells[row])
        } else {
            sentinel_text()
        },
        Column::Dictionary { keys, values, value_type } => match tag {
            TypeTag::Dictionary(width) => if supported(width) && row < keys.len() {
                match &keys[row] {
                    CellValue::Signed(k) => if *k >= 0 && (*k as u64) < values.len() as u64 {
                        format_value(*value_type, &values[*k as usize])
                    } else {
                        sentinel_text()
                    },
                    CellValue::Unsigned(k) => if *k < values.len() as u64 {
                        format_value(*value_type, &values[*k as usize])
                    } else {
                        sentinel_text()
                    },
                    _ => sentinel_text(),
                }
            } else {
                sentinel_text()
            },
            _ => sentinel_text(),
        },
        Column::RunEnd { run_ends, values, value_type, offset, rows } => match tag {
            TypeTag::RunEndEncoded(width) => if supported(width) && row < *rows {
                let run = find_run(run_ends, *offset as u128 + row as u128);
                if run < run_ends.len() && run < values.len() {
                    format_value(*value_type, &values[run])
                } else {
                    sentinel_text()
                }
            } else {
                sentinel_text()
            },
            _ => sentinel_text(),
        },
    }
}

} // verus!

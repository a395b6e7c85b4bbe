use orc_view::format::{format_cell, format_value, policy, sentinel_text, Policy};
use orc_view::{CellValue, Column, KeyWidth, TimeUnit, TypeTag};

fn text(s: &str) -> CellValue {
    CellValue::Text(s.to_string())
}

fn all_tags() -> Vec<TypeTag> {
    vec![
        TypeTag::Null,
        TypeTag::Boolean,
        TypeTag::Int8,
        TypeTag::Int16,
        TypeTag::Int32,
        TypeTag::Int64,
        TypeTag::UInt8,
        TypeTag::UInt16,
        TypeTag::UInt32,
        TypeTag::UInt64,
        TypeTag::Float16,
        TypeTag::Float32,
        TypeTag::Float64,
        TypeTag::Timestamp(TimeUnit::Second),
        TypeTag::Timestamp(TimeUnit::Millisecond),
        TypeTag::Timestamp(TimeUnit::Microsecond),
        TypeTag::Timestamp(TimeUnit::Nanosecond),
        TypeTag::Date32,
        TypeTag::Date64,
        TypeTag::Time32(TimeUnit::Second),
        TypeTag::Time64(TimeUnit::Nanosecond),
        TypeTag::Duration(TimeUnit::Millisecond),
        TypeTag::IntervalYearMonth,
        TypeTag::IntervalDayTime,
        TypeTag::IntervalMonthDayNano,
        TypeTag::Binary,
        TypeTag::FixedSizeBinary,
        TypeTag::LargeBinary,
        TypeTag::BinaryView,
        TypeTag::Utf8,
        TypeTag::LargeUtf8,
        TypeTag::Utf8View,
        TypeTag::List,
        TypeTag::LargeList,
        TypeTag::ListView,
        TypeTag::LargeListView,
        TypeTag::FixedSizeList,
        TypeTag::Mapping,
        TypeTag::Union,
        TypeTag::Struct,
        TypeTag::Dictionary(KeyWidth::Int32),
        TypeTag::RunEndEncoded(KeyWidth::Int16),
        TypeTag::Decimal128(10, 2),
        TypeTag::Decimal256(40, 3),
        TypeTag::Unknown,
    ]
}

#[test]
fn a_null_cell_is_the_sentinel_under_every_type() {
    assert_eq!(sentinel_text(), "NULL");
    for tag in all_tags() {
        assert_eq!(format_value(tag, &CellValue::Null), "NULL");
        let column = Column::Plain { cells: vec![CellValue::Signed(1), CellValue::Null] };
        assert_eq!(format_cell(&column, tag, 1), "NULL");
    }
}

#[test]
fn signed_integer_types_render_in_decimal() {
    assert_eq!(format_value(TypeTag::Int8, &CellValue::Signed(-128)), "-128");
    assert_eq!(format_value(TypeTag::Int16, &CellValue::Signed(32767)), "32767");
    assert_eq!(format_value(TypeTag::Int32, &CellValue::Signed(-2147483648)), "-2147483648");
    assert_eq!(
        format_value(TypeTag::Int64, &CellValue::Signed(i64::MIN)),
        "-9223372036854775808"
    );
    assert_eq!(format_value(TypeTag::Int64, &CellValue::Signed(1234567)), "1234567");
}

#[test]
fn unsigned_integer_types_render_in_decimal() {
    assert_eq!(format_value(TypeTag::UInt8, &CellValue::Unsigned(255)), "255");
    assert_eq!(format_value(TypeTag::UInt16, &CellValue::Unsigned(65535)), "65535");
    assert_eq!(format_value(TypeTag::UInt32, &CellValue::Unsigned(4294967295)), "4294967295");
    assert_eq!(
        format_value(TypeTag::UInt64, &CellValue::Unsigned(u64::MAX)),
        "18446744073709551615"
    );
}

#[test]
fn floating_point_types_render_the_text_that_the_decoder_made() {
    let shortest = 1.5f64.to_string();
    assert_eq!(format_value(TypeTag::Float64, &CellValue::Text(shortest)), "1.5");
    let integral = 3.0f32.to_string();
    assert_eq!(format_value(TypeTag::Float32, &CellValue::Text(integral)), "3");
    let large = 1e21f64.to_string();
    assert_eq!(format_value(TypeTag::Float64, &CellValue::Text(large)), "1000000000000000000000");
    assert_eq!(format_value(TypeTag::Float16, &text("0.25")), "0.25");
}

#[test]
fn booleans_render_as_true_and_false() {
    assert_eq!(format_value(TypeTag::Boolean, &CellValue::Boolean(true)), "true");
    assert_eq!(format_value(TypeTag::Boolean, &CellValue::Boolean(false)), "false");
}

#[test]
fn timestamps_render_as_rfc_3339_in_utc() {
    let second = TypeTag::Timestamp(TimeUnit::Second);
    assert_eq!(format_value(second, &CellValue::Signed(0)), "1970-01-01T00:00:00+00:00");
    assert_eq!(
        format_value(second, &CellValue::Signed(1_700_000_000)),
        "2023-11-14T22:13:20+00:00"
    );
    assert_eq!(format_value(second, &CellValue::Signed(-1)), "1969-12-31T23:59:59+00:00");
}

#[test]
fn finer_timestamps_drop_the_fraction_of_a_second() {
    let nano = TypeTag::Timestamp(TimeUnit::Nanosecond);
    assert_eq!(
        format_value(nano, &CellValue::Signed(1_700_000_000_123_456_789)),
        "2023-11-14T22:13:20+00:00"
    );
    assert_eq!(format_value(nano, &CellValue::Signed(999_999_999)), "1970-01-01T00:00:00+00:00");
    assert_eq!(format_value(nano, &CellValue::Signed(-1)), "1970-01-01T00:00:00+00:00");
    assert_eq!(
        format_value(nano, &CellValue::Signed(-1_000_000_000)),
        "1969-12-31T23:59:59+00:00"
    );
    assert_eq!(format_value(nano, &CellValue::Signed(i64::MIN)), "1677-09-21T00:12:44+00:00");
    let milli = TypeTag::Timestamp(TimeUnit::Millisecond);
    assert_eq!(
        format_value(milli, &CellValue::Signed(1_700_000_000_999)),
        "2023-11-14T22:13:20+00:00"
    );
    let micro = TypeTag::Timestamp(TimeUnit::Microsecond);
    assert_eq!(
        format_value(micro, &CellValue::Signed(1_700_000_000_999_999)),
        "2023-11-14T22:13:20+00:00"
    );
}

#[test]
fn timestamps_outside_the_four_digit_years_are_the_sentinel() {
    let second = TypeTag::Timestamp(TimeUnit::Second);
    assert_eq!(format_value(second, &CellValue::Signed(253_402_300_800)), "NULL");
    assert_eq!(format_value(second, &CellValue::Signed(i64::MAX)), "NULL");
    assert_eq!(format_value(second, &CellValue::Signed(i64::MIN)), "NULL");
    assert_eq!(
        format_value(second, &CellValue::Signed(253_402_300_799)),
        "9999-12-31T23:59:59+00:00"
    );
}

#[test]
fn dates_render_as_midnight_of_their_day() {
    assert_eq!(format_value(TypeTag::Date32, &CellValue::Signed(0)), "1970-01-01T00:00:00+00:00");
    assert_eq!(
        format_value(TypeTag::Date32, &CellValue::Signed(19_000)),
        "2022-01-08T00:00:00+00:00"
    );
    assert_eq!(
        format_value(TypeTag::Date64, &CellValue::Signed(11_016)),
        "2000-02-29T00:00:00+00:00"
    );
    assert_eq!(
        format_value(TypeTag::Date32, &CellValue::Signed(-1)),
        "1969-12-31T00:00:00+00:00"
    );
    assert_eq!(
        format_value(TypeTag::Date64, &CellValue::Signed(2_932_896)),
        "9999-12-31T00:00:00+00:00"
    );
    assert_eq!(
        format_value(TypeTag::Date64, &CellValue::Signed(-719_528)),
        "0000-01-01T00:00:00+00:00"
    );
    assert_eq!(format_value(TypeTag::Date64, &CellValue::Signed(2_932_897)), "NULL");
    assert_eq!(format_value(TypeTag::Date64, &CellValue::Signed(-719_529)), "NULL");
    assert_eq!(format_value(TypeTag::Date64, &CellValue::Signed(i64::MAX)), "NULL");
}

#[test]
fn times_and_durations_render_their_count() {
    assert_eq!(
        format_value(TypeTag::Time32(TimeUnit::Second), &CellValue::Signed(86_399)),
        "86399"
    );
    assert_eq!(
        format_value(TypeTag::Time32(TimeUnit::Millisecond), &CellValue::Signed(1_500)),
        "1500"
    );
    assert_eq!(
        format_value(TypeTag::Time64(TimeUnit::Microsecond), &CellValue::Signed(7)),
        "7"
    );
    assert_eq!(
        format_value(TypeTag::Time64(TimeUnit::Nanosecond), &CellValue::Signed(123_456_789)),
        "123456789"
    );
    assert_eq!(
        format_value(TypeTag::Duration(TimeUnit::Second), &CellValue::Signed(-90)),
        "-90"
    );
}

#[test]
fn intervals_render_one_component() {
    assert_eq!(format_value(TypeTag::IntervalYearMonth, &CellValue::Signed(14)), "14");
    assert_eq!(
        format_value(
            TypeTag::IntervalDayTime,
            &CellValue::DayTime { days: 3, milliseconds: 250 }
        ),
        "250"
    );
    assert_eq!(
        format_value(
            TypeTag::IntervalMonthDayNano,
            &CellValue::MonthDayNano { months: 1, days: 2, nanoseconds: -3_000 }
        ),
        "-3000"
    );
}

#[test]
fn binary_renders_as_lossy_text() {
    assert_eq!(format_value(TypeTag::Binary, &CellValue::Bytes(vec![0x68, 0x69])), "hi");
    assert_eq!(
        format_value(TypeTag::LargeBinary, &CellValue::Bytes(vec![0x66, 0xff, 0x6f])),
        "f\u{fffd}o"
    );
    assert_eq!(
        format_value(TypeTag::FixedSizeBinary, &CellValue::Bytes(vec![0xc3, 0xa9])),
        "\u{e9}"
    );
    assert_eq!(format_value(TypeTag::BinaryView, &CellValue::Bytes(vec![])), "");
    assert_eq!(format_value(TypeTag::Binary, &CellValue::Bytes(vec![0xc3])), "\u{fffd}");
}

#[test]
fn strings_render_as_they_are() {
    assert_eq!(format_value(TypeTag::Utf8, &text("b,c")), "b,c");
    assert_eq!(format_value(TypeTag::LargeUtf8, &text("")), "");
    assert_eq!(format_value(TypeTag::Utf8View, &text("NULL")), "NULL");
}

#[test]
fn nested_values_render_the_text_that_the_decoder_made() {
    assert_eq!(format_value(TypeTag::List, &text("[1, 2]")), "[1, 2]");
    assert_eq!(format_value(TypeTag::LargeList, &text("[]")), "[]");
    assert_eq!(format_value(TypeTag::ListView, &text("[3]")), "[3]");
    assert_eq!(format_value(TypeTag::LargeListView, &text("[4]")), "[4]");
    assert_eq!(format_value(TypeTag::FixedSizeList, &text("[5, 6]")), "[5, 6]");
    assert_eq!(format_value(TypeTag::Mapping, &text("{a: 1}")), "{a: 1}");
    assert_eq!(format_value(TypeTag::Union, &text("(i, 7)")), "(i, 7)");
}

#[test]
fn structs_and_unknown_types_render_as_the_sentinel() {
    assert_eq!(format_value(TypeTag::Struct, &text("{a: 1}")), "NULL");
    assert_eq!(format_value(TypeTag::Struct, &CellValue::Signed(1)), "NULL");
    assert_eq!(format_value(TypeTag::Unknown, &text("x")), "NULL");
    assert_eq!(format_value(TypeTag::Null, &CellValue::Signed(1)), "NULL");
}

#[test]
fn a_value_of_another_kind_than_the_type_renders_as_the_sentinel() {
    assert_eq!(format_value(TypeTag::Int32, &text("12")), "NULL");
    assert_eq!(format_value(TypeTag::Int32, &CellValue::Unsigned(12)), "NULL");
    assert_eq!(format_value(TypeTag::UInt32, &CellValue::Signed(12)), "NULL");
    assert_eq!(format_value(TypeTag::Boolean, &CellValue::Signed(1)), "NULL");
    assert_eq!(format_value(TypeTag::Utf8, &CellValue::Bytes(vec![0x61])), "NULL");
    assert_eq!(format_value(TypeTag::Binary, &text("a")), "NULL");
    assert_eq!(format_value(TypeTag::Decimal128(10, 2), &CellValue::Signed(1)), "NULL");
    assert_eq!(format_value(TypeTag::IntervalDayTime, &CellValue::Signed(1)), "NULL");
    assert_eq!(format_value(TypeTag::Int64, &CellValue::Wide(1)), "NULL");
}

#[test]
fn decimals_render_with_their_scale() {
    assert_eq!(format_value(TypeTag::Decimal128(10, 2), &CellValue::Wide(12345)), "123.45");
    assert_eq!(format_value(TypeTag::Decimal128(10, 2), &CellValue::Wide(-5)), "-0.05");
    assert_eq!(format_value(TypeTag::Decimal128(10, 0), &CellValue::Wide(12345)), "12345");
    assert_eq!(format_value(TypeTag::Decimal128(10, -2), &CellValue::Wide(12345)), "1234500");
    assert_eq!(format_value(TypeTag::Decimal128(38, 10), &CellValue::Wide(0)), "0.0000000000");
    assert_eq!(
        format_value(
            TypeTag::Decimal128(38, 4),
            &CellValue::Wide(-99999999999999999999999999999999999999)
        ),
        "-9999999999999999999999999999999999.9999"
    );
}

#[test]
fn wide_decimals_render_with_their_scale() {
    assert_eq!(
        format_value(TypeTag::Decimal256(40, 3), &CellValue::Wider { low: 12345, high: 0 }),
        "12.345"
    );
    assert_eq!(
        format_value(TypeTag::Decimal256(40, 2), &CellValue::Wider { low: u128::MAX, high: -1 }),
        "-0.01"
    );
    assert_eq!(
        format_value(TypeTag::Decimal256(76, 0), &CellValue::Wider { low: 0, high: 1 }),
        "340282366920938463463374607431768211456"
    );
}

#[test]
fn a_decimal_whose_scale_exceeds_its_precision_is_the_sentinel() {
    assert_eq!(format_value(TypeTag::Decimal128(2, 5), &CellValue::Wide(1234567)), "NULL");
    assert_eq!(
        format_value(TypeTag::Decimal256(2, 5), &CellValue::Wider { low: 1234567, high: 0 }),
        "NULL"
    );
    assert_eq!(format_value(TypeTag::Decimal128(0, 1), &CellValue::Wide(12)), "NULL");
    assert_eq!(format_value(TypeTag::Decimal128(5, 5), &CellValue::Wide(12)), "0.00012");
}

#[test]
fn a_dictionary_column_renders_what_its_keys_name() {
    let column = Column::Dictionary {
        keys: vec![
            CellValue::Signed(1),
            CellValue::Null,
            CellValue::Unsigned(0),
            CellValue::Signed(5),
            CellValue::Signed(-1),
            CellValue::Unsigned(2),
        ],
        values: vec![text("a"), text("b")],
        value_type: TypeTag::Utf8,
    };
    let tag = TypeTag::Dictionary(KeyWidth::Int8);
    assert_eq!(format_cell(&column, tag, 0), "b");
    assert_eq!(format_cell(&column, tag, 1), "NULL");
    assert_eq!(format_cell(&column, tag, 2), "a");
    assert_eq!(format_cell(&column, tag, 3), "NULL");
    assert_eq!(format_cell(&column, tag, 4), "NULL");
    assert_eq!(format_cell(&column, tag, 5), "NULL");
    assert_eq!(format_cell(&column, tag, 6), "NULL");
    for width in [
        KeyWidth::Int8,
        KeyWidth::Int16,
        KeyWidth::Int32,
        KeyWidth::Int64,
        KeyWidth::UInt8,
        KeyWidth::UInt16,
        KeyWidth::UInt32,
        KeyWidth::UInt64,
    ] {
        assert_eq!(format_cell(&column, TypeTag::Dictionary(width), 0), "b");
    }
    assert_eq!(format_cell(&column, TypeTag::Dictionary(KeyWidth::Other), 0), "NULL");
    assert_eq!(format_cell(&column, TypeTag::Utf8, 0), "NULL");
}

#[test]
fn a_dictionary_value_renders_by_the_type_of_the_values() {
    let column = Column::Dictionary {
        keys: vec![CellValue::Unsigned(1), CellValue::Unsigned(0)],
        values: vec![CellValue::Signed(0), CellValue::Null],
        value_type: TypeTag::Timestamp(TimeUnit::Second),
    };
    let tag = TypeTag::Dictionary(KeyWidth::UInt16);
    assert_eq!(format_cell(&column, tag, 0), "NULL");
    assert_eq!(format_cell(&column, tag, 1), "1970-01-01T00:00:00+00:00");
}

#[test]
fn a_run_end_encoded_column_renders_the_value_of_the_run() {
    let column = Column::RunEnd {
        run_ends: vec![2, 5],
        values: vec![CellValue::Signed(7), CellValue::Signed(9)],
        value_type: TypeTag::Int32,
        offset: 0,
        rows: 5,
    };
    let tag = TypeTag::RunEndEncoded(KeyWidth::Int32);
    assert_eq!(format_cell(&column, tag, 0), "7");
    assert_eq!(format_cell(&column, tag, 1), "7");
    assert_eq!(format_cell(&column, tag, 2), "9");
    assert_eq!(format_cell(&column, tag, 4), "9");
    assert_eq!(format_cell(&column, tag, 5), "NULL");
    assert_eq!(format_cell(&column, TypeTag::RunEndEncoded(KeyWidth::Other), 0), "NULL");
    assert_eq!(format_cell(&column, TypeTag::Int32, 0), "NULL");
}

#[test]
fn a_run_end_encoded_column_counts_its_rows_from_its_offset() {
    let column = Column::RunEnd {
        run_ends: vec![2, 5, 9],
        values: vec![CellValue::Signed(7), CellValue::Signed(9), CellValue::Null],
        value_type: TypeTag::Int32,
        offset: 4,
        rows: 4,
    };
    let tag = TypeTag::RunEndEncoded(KeyWidth::Int32);
    assert_eq!(format_cell(&column, tag, 0), "9");
    assert_eq!(format_cell(&column, tag, 1), "NULL");
    assert_eq!(format_cell(&column, tag, 3), "NULL");
    assert_eq!(format_cell(&column, tag, 4), "NULL");
    let far = Column::RunEnd {
        run_ends: vec![u64::MAX],
        values: vec![CellValue::Signed(1)],
        value_type: TypeTag::Int32,
        offset: usize::MAX - 1,
        rows: usize::MAX,
    };
    assert_eq!(format_cell(&far, tag, 0), "1");
    assert_eq!(format_cell(&far, tag, 1), "NULL");
    assert_eq!(format_cell(&far, tag, usize::MAX - 1), "NULL");
}

#[test]
fn a_run_without_a_value_renders_as_the_sentinel() {
    let column = Column::RunEnd {
        run_ends: vec![2, 3],
        values: vec![CellValue::Signed(7)],
        value_type: TypeTag::Int64,
        offset: 0,
        rows: 6,
    };
    let tag = TypeTag::RunEndEncoded(KeyWidth::Int64);
    assert_eq!(format_cell(&column, tag, 1), "7");
    assert_eq!(format_cell(&column, tag, 2), "NULL");
    assert_eq!(format_cell(&column, tag, 3), "NULL");
    assert_eq!(format_cell(&column, tag, 5), "NULL");
}

#[test]
fn a_row_outside_the_column_renders_as_the_sentinel() {
    let column = Column::Plain { cells: vec![CellValue::Signed(1)] };
    assert_eq!(format_cell(&column, TypeTag::Int32, 0), "1");
    assert_eq!(format_cell(&column, TypeTag::Int32, 1), "NULL");
    assert_eq!(format_cell(&column, TypeTag::Int32, usize::MAX), "NULL");
}

#[test]
fn each_type_has_its_policy() {
    assert_eq!(policy(TypeTag::Int8), Policy::SignedDecimal);
    assert_eq!(policy(TypeTag::UInt64), Policy::UnsignedDecimal);
    assert_eq!(policy(TypeTag::Boolean), Policy::TruthValue);
    assert_eq!(policy(TypeTag::Float64), Policy::Verbatim);
    assert_eq!(policy(TypeTag::Utf8), Policy::Verbatim);
    assert_eq!(policy(TypeTag::Mapping), Policy::Verbatim);
    assert_eq!(
        policy(TypeTag::Timestamp(TimeUnit::Nanosecond)),
        Policy::Instant(TimeUnit::Nanosecond)
    );
    assert_eq!(policy(TypeTag::Date32), Policy::Day);
    assert_eq!(policy(TypeTag::Binary), Policy::LossyText);
    assert_eq!(policy(TypeTag::IntervalDayTime), Policy::Milliseconds);
    assert_eq!(policy(TypeTag::IntervalMonthDayNano), Policy::Nanoseconds);
    assert_eq!(policy(TypeTag::Decimal128(10, 2)), Policy::Decimal128(10, 2));
    assert_eq!(policy(TypeTag::Decimal256(40, 3)), Policy::Decimal256(40, 3));
    assert_eq!(policy(TypeTag::Struct), Policy::Sentinel);
    assert_eq!(policy(TypeTag::Dictionary(KeyWidth::Int8)), Policy::Sentinel);
    assert_eq!(policy(TypeTag::RunEndEncoded(KeyWidth::Int16)), Policy::Sentinel);
    assert_eq!(policy(TypeTag::Unknown), Policy::Sentinel);
    assert_eq!(policy(TypeTag::Null), Policy::Sentinel);
}

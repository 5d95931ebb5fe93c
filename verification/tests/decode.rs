use querygate::binary::decode_binary;
use querygate::cascade::{
    decode_outcome, decode_row, mysql_cascade, postgres_cascade, sqlite_cascade, DateTimeParts,
    ProbeOutcome, ProbeType,
};
use querygate::values::CellValue;

#[test]
fn utf8_bytes_decode_to_text() {
    let b: Vec<u8> = vec![104, 105, 32, 226, 152, 131];
    assert_eq!(decode_binary(&b), "hi \u{2603}");
}

#[test]
fn empty_bytes_decode_to_empty_text() {
    let b: Vec<u8> = Vec::new();
    assert_eq!(decode_binary(&b), "");
}

#[test]
fn short_non_utf8_bytes_become_lowercase_hex() {
    let b: Vec<u8> = vec![0xff, 0x00, 0xab, 0x0f];
    assert_eq!(decode_binary(&b), "0xff00ab0f");
}

#[test]
fn hex_form_has_two_digits_per_byte_plus_prefix() {
    let b: Vec<u8> = vec![0xfe; 100];
    let s = decode_binary(&b);
    assert_eq!(s.len(), 2 * 100 + 2);
    assert!(s.starts_with("0x"));
    assert!(s[2..].chars().all(|c| c.is_ascii_hexdigit() && !c.is_ascii_uppercase()));
}

#[test]
fn long_non_utf8_bytes_become_placeholder_with_count() {
    let b: Vec<u8> = vec![0xfe; 101];
    assert_eq!(decode_binary(&b), "<binary: 101 bytes>");
    let b2: Vec<u8> = vec![0x80; 12345];
    assert_eq!(decode_binary(&b2), "<binary: 12345 bytes>");
}

#[test]
fn datetime_renders_zero_padded() {
    let d = DateTimeParts { year: 2024, month: 3, day: 7, hour: 9, minute: 5, second: 3 };
    assert_eq!(
        decode_outcome(&ProbeOutcome::DateTime(d)),
        CellValue::Text("2024-03-07 09:05:03".to_string())
    );
    assert_eq!(
        decode_outcome(&ProbeOutcome::DateTimeUtc(d)),
        CellValue::Text("2024-03-07 09:05:03 UTC".to_string())
    );
    assert_eq!(decode_outcome(&ProbeOutcome::Date(d)), CellValue::Text("2024-03-07".to_string()));
    assert_eq!(decode_outcome(&ProbeOutcome::Time(d)), CellValue::Text("09:05:03".to_string()));
}

#[test]
fn ancient_year_pads_to_four_digits() {
    let d = DateTimeParts { year: 982, month: 12, day: 31, hour: 23, minute: 59, second: 59 };
    assert_eq!(decode_outcome(&ProbeOutcome::Date(d)), CellValue::Text("0982-12-31".to_string()));
}

#[test]
fn unsupported_type_becomes_placeholder_naming_it() {
    let o = ProbeOutcome::Unsupported("JSONB".to_string());
    assert_eq!(decode_outcome(&o), CellValue::Text("<unsupported: JSONB>".to_string()));
}

#[test]
fn null_cell_is_distinct_from_zero() {
    assert_eq!(decode_outcome(&ProbeOutcome::Null), CellValue::Null);
    assert_ne!(CellValue::Null, CellValue::Int(0));
}

#[test]
fn plain_values_pass_through() {
    assert_eq!(decode_outcome(&ProbeOutcome::Int(-42)), CellValue::Int(-42));
    assert_eq!(decode_outcome(&ProbeOutcome::UInt(42)), CellValue::UInt(42));
    assert_eq!(decode_outcome(&ProbeOutcome::Bool(true)), CellValue::Bool(true));
    let bits = 2.5f64.to_bits();
    assert_eq!(decode_outcome(&ProbeOutcome::Float(bits)), CellValue::Float(bits));
    assert_eq!(
        decode_outcome(&ProbeOutcome::Json("{\"a\":1}".to_string())),
        CellValue::Json("{\"a\":1}".to_string())
    );
}

#[test]
fn decode_row_keeps_order_and_length() {
    let row = vec![
        ProbeOutcome::Text("abc".to_string()),
        ProbeOutcome::Null,
        ProbeOutcome::Int(5),
    ];
    let cells = decode_row(&row);
    assert_eq!(
        cells,
        vec![CellValue::Text("abc".to_string()), CellValue::Null, CellValue::Int(5)]
    );
}

#[test]
fn postgres_cascade_order_is_fixed() {
    let c = postgres_cascade();
    assert_eq!(
        c,
        vec![
            ProbeType::Text,
            ProbeType::DateTimeNaive,
            ProbeType::DateTimeUtc,
            ProbeType::DateOnly,
            ProbeType::TimeOnly,
            ProbeType::Json,
            ProbeType::Bytes,
            ProbeType::Int8,
            ProbeType::Int4,
            ProbeType::Int2,
            ProbeType::Double,
            ProbeType::Float,
            ProbeType::Bool,
        ]
    );
}

#[test]
fn mysql_cascade_has_the_wider_integer_ladder() {
    let c = mysql_cascade();
    assert_eq!(c.len(), 17);
    assert_eq!(c[0], ProbeType::Text);
    assert_eq!(
        &c[6..14],
        &[
            ProbeType::Int8,
            ProbeType::Int4,
            ProbeType::Int2,
            ProbeType::Int1,
            ProbeType::UInt8,
            ProbeType::UInt4,
            ProbeType::UInt2,
            ProbeType::UInt1,
        ]
    );
}

#[test]
fn sqlite_cascade_is_narrow_and_has_no_timestamp_rung() {
    let c = sqlite_cascade();
    assert_eq!(
        c,
        vec![
            ProbeType::Text,
            ProbeType::Int8,
            ProbeType::Int4,
            ProbeType::Double,
            ProbeType::Bool,
            ProbeType::Bytes,
        ]
    );
}

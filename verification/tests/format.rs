use rust_sp_web::comm::db::select_json_sql;
use rust_sp_web::comm::util::{format_i128_with_commas, format_with_commas};

#[test]
fn formats_zero() {
    assert_eq!(format_with_commas(0), "0");
}

#[test]
fn short_numbers_have_no_separator() {
    assert_eq!(format_with_commas(7), "7");
    assert_eq!(format_with_commas(999), "999");
    assert_eq!(format_with_commas(-99), "-99");
}

#[test]
fn separates_thousands() {
    assert_eq!(format_with_commas(1000), "1,000");
    assert_eq!(format_with_commas(16384), "16,384");
    assert_eq!(format_with_commas(1234567), "1,234,567");
    assert_eq!(format_with_commas(100000), "100,000");
}

#[test]
fn negative_numbers_count_the_sign() {
    assert_eq!(format_with_commas(-1234), "-1,234");
    assert_eq!(format_with_commas(-123456), "-,123,456");
}

#[test]
fn formats_the_extremes() {
    assert_eq!(
        format_with_commas(i128::MAX),
        "170,141,183,460,469,231,731,687,303,715,884,105,727"
    );
    assert_eq!(
        format_with_commas(i128::MIN),
        "-,170,141,183,460,469,231,731,687,303,715,884,105,728"
    );
}

#[test]
fn matches_display_once_commas_are_removed() {
    for v in [0i128, 5, 12, 1000, 987654321, -42, -1000000, i128::MAX, i128::MIN] {
        let formatted = format_with_commas(v);
        assert_eq!(formatted.replace(',', ""), v.to_string());
        let n = v.to_string().len();
        assert_eq!(formatted.len(), n + (n - 1) / 3);
    }
}

#[test]
fn wraps_query_for_json_rows() {
    assert_eq!(
        select_json_sql("select 1 as a"),
        "select row_to_json(t) as j from (select 1 as a) t"
    );
    assert_eq!(select_json_sql(""), "select row_to_json(t) as j from () t");
}

#[test]
fn accepts_any_integer_that_widens_to_i128() {
    assert_eq!(format_with_commas(u64::MAX), "18,446,744,073,709,551,615");
    assert_eq!(format_with_commas(255u8), "255");
    assert_eq!(format_with_commas(-32768i16), "-32,768");
    assert_eq!(format_with_commas(4096u32), "4,096");
}

#[test]
fn i128_form_agrees() {
    for v in [0i128, 999, 1000, -1000, 123456789012345678] {
        assert_eq!(format_i128_with_commas(v), format_with_commas(v));
    }
    assert_eq!(format_i128_with_commas(123456789012345678), "123,456,789,012,345,678");
}

#[test]
fn formats_unsigned_arguments() {
    assert_eq!(format_with_commas(1234567u32), "1,234,567");
    assert_eq!(format_with_commas(1000u16), "1,000");
    assert_eq!(format_with_commas(123456u32), "123,456");
}

#[test]
fn formats_booleans_as_zero_or_one() {
    assert_eq!(format_with_commas(true), "1");
    assert_eq!(format_with_commas(false), "0");
}

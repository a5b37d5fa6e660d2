use string_kernels::column::{ColumnArg, Int64Column, Kernel, KernelError, OffsetWidth, StringColumn};
use string_kernels::text::white_space;
use string_kernels::kernels::{
    apply_unary, concatenate, lower, lpad, ltrim, rtrim, trim, unary, upper, UnaryOp,
};

fn strings(width: OffsetWidth, rows: &[Option<&str>]) -> ColumnArg {
    ColumnArg::Utf8(StringColumn::new(
        width,
        rows.iter().map(|r| r.map(|s| s.to_string())).collect(),
    ))
}

fn narrow(rows: &[Option<&str>]) -> ColumnArg {
    strings(OffsetWidth::Narrow, rows)
}

fn ints(rows: &[Option<i64>]) -> ColumnArg {
    ColumnArg::Int64(Int64Column::new(rows.to_vec()))
}

fn rows_of(r: Result<StringColumn, KernelError>) -> Vec<Option<String>> {
    r.expect("kernel failed").rows
}

fn owned(rows: &[Option<&str>]) -> Vec<Option<String>> {
    rows.iter().map(|r| r.map(|s| s.to_string())).collect()
}

fn lpad2(s: &str, len: i64) -> Option<String> {
    rows_of(lpad(OffsetWidth::Narrow, &[narrow(&[Some(s)]), ints(&[Some(len)])])).remove(0)
}

fn lpad3(s: &str, len: i64, fill: &str) -> Option<String> {
    rows_of(lpad(
        OffsetWidth::Narrow,
        &[narrow(&[Some(s)]), ints(&[Some(len)]), narrow(&[Some(fill)])],
    ))
    .remove(0)
}

#[test]
fn concatenate_single_argument_is_identity() {
    let rows = [Some("a"), None, Some(""), Some("xyz")];
    let out = concatenate(OffsetWidth::Narrow, &[narrow(&rows)]).unwrap();
    assert_eq!(out.width, OffsetWidth::Narrow);
    assert_eq!(out.rows, owned(&rows));
}

#[test]
fn concatenate_two_columns_nulls_and_values() {
    let a = narrow(&[Some("ab"), None, Some("x"), None, Some("é")]);
    let b = narrow(&[Some("cd"), Some("y"), None, None, Some("ü")]);
    let out = rows_of(concatenate(OffsetWidth::Narrow, &[a, b]));
    assert_eq!(out, owned(&[Some("abcd"), None, None, None, Some("éü")]));
}

#[test]
fn concatenate_three_columns_in_argument_order() {
    let out = rows_of(concatenate(OffsetWidth::Narrow, &[
        narrow(&[Some("1"), Some("")]),
        narrow(&[Some("2"), Some("")]),
        narrow(&[Some("3"), None]),
    ]));
    assert_eq!(out, owned(&[Some("123"), None]));
}

#[test]
fn concatenate_without_arguments_is_arity_error() {
    assert_eq!(
        concatenate(OffsetWidth::Narrow, &[]).unwrap_err(),
        KernelError::ArityError { kernel: Kernel::Concatenate, min: 1, max: None, received: 0 }
    );
}

#[test]
fn concatenate_rejects_other_kinds() {
    assert_eq!(
        concatenate(OffsetWidth::Narrow, &[narrow(&[Some("a")]), ints(&[Some(1)])]).unwrap_err(),
        KernelError::TypeMismatch(Kernel::Concatenate)
    );
    assert_eq!(
        concatenate(OffsetWidth::Narrow, &[strings(OffsetWidth::Wide, &[Some("a")])]).unwrap_err(),
        KernelError::TypeMismatch(Kernel::Concatenate)
    );
    assert_eq!(
        concatenate(
            OffsetWidth::Wide,
            &[strings(OffsetWidth::Wide, &[Some("a")]), narrow(&[Some("b")])]
        )
        .unwrap_err(),
        KernelError::TypeMismatch(Kernel::Concatenate)
    );
}

#[test]
fn concatenate_rejects_unequal_lengths() {
    assert_eq!(
        concatenate(OffsetWidth::Narrow, &[narrow(&[Some("a")]), narrow(&[Some("b"), Some("c")])]).unwrap_err(),
        KernelError::LengthMismatch(Kernel::Concatenate)
    );
}

#[test]
fn lpad_to_zero_is_empty() {
    assert_eq!(lpad2("hello", 0), Some(String::new()));
    assert_eq!(lpad2("", 0), Some(String::new()));
    assert_eq!(lpad3("hi", 0, "xy"), Some(String::new()));
    assert_eq!(lpad3("hi", 0, ""), Some(String::new()));
}

#[test]
fn lpad_truncation_keeps_prefix() {
    assert_eq!(lpad2("hello", 3), Some("hel".to_string()));
    assert_eq!(lpad3("hello", 3, "xy"), Some("hel".to_string()));
}

#[test]
fn lpad_pads_with_spaces() {
    assert_eq!(lpad2("hi", 5), Some("   hi".to_string()));
    assert_eq!(lpad2("hi", 2), Some("hi".to_string()));
}

#[test]
fn lpad_fill_cycles() {
    assert_eq!(lpad3("hi", 5, "xy"), Some("xyxhi".to_string()));
    assert_eq!(lpad3("", 4, "abc"), Some("abca".to_string()));
}

#[test]
fn lpad_empty_fill_leaves_string() {
    assert_eq!(lpad3("hi", 5, ""), Some("hi".to_string()));
}

#[test]
fn lpad_counts_characters_not_bytes() {
    assert_eq!(lpad2("héllo", 2), Some("hé".to_string()));
    assert_eq!(lpad2("é", 3), Some("  é".to_string()));
    assert_eq!(lpad3("a", 4, "ñö"), Some("ñöña".to_string()));
}

#[test]
fn lpad_negative_length_is_empty() {
    assert_eq!(lpad2("hi", -3), Some(String::new()));
    assert_eq!(lpad3("hi", i64::MIN, "x"), Some(String::new()));
}

#[test]
fn lpad_null_in_any_argument_is_null() {
    let out = rows_of(lpad(
        OffsetWidth::Narrow,
        &[
            narrow(&[None, Some("a"), Some("a"), Some("a")]),
            ints(&[Some(3), None, Some(3), Some(3)]),
            narrow(&[Some("x"), Some("x"), None, Some("x")]),
        ],
    ));
    assert_eq!(out, owned(&[None, None, None, Some("xxa")]));
    let out = rows_of(lpad(
        OffsetWidth::Wide,
        &[strings(OffsetWidth::Wide, &[None, Some("a")]), ints(&[Some(2), None])],
    ));
    assert_eq!(out, vec![None, None]);
}

#[test]
fn lpad_keeps_offset_width() {
    let out = lpad(
        OffsetWidth::Wide,
        &[strings(OffsetWidth::Wide, &[Some("ab")]), ints(&[Some(4)])],
    )
    .unwrap();
    assert_eq!(out.width, OffsetWidth::Wide);
    assert_eq!(out.rows, owned(&[Some("  ab")]));
}

#[test]
fn lpad_wrong_arity_is_arity_error() {
    assert_eq!(
        lpad(OffsetWidth::Narrow, &[narrow(&[Some("a")])]).unwrap_err(),
        KernelError::ArityError { kernel: Kernel::Lpad, min: 2, max: Some(3), received: 1 }
    );
    let four = [narrow(&[Some("a")]), ints(&[Some(1)]), narrow(&[Some("x")]), narrow(&[Some("y")])];
    assert_eq!(
        lpad(OffsetWidth::Narrow, &four).unwrap_err(),
        KernelError::ArityError { kernel: Kernel::Lpad, min: 2, max: Some(3), received: 4 }
    );
    assert_eq!(
        lpad(OffsetWidth::Narrow, &[]).unwrap_err(),
        KernelError::ArityError { kernel: Kernel::Lpad, min: 2, max: Some(3), received: 0 }
    );
}

#[test]
fn lpad_type_mismatch() {
    assert_eq!(
        lpad(OffsetWidth::Narrow, &[narrow(&[Some("a")]), narrow(&[Some("3")])]).unwrap_err(),
        KernelError::TypeMismatch(Kernel::Lpad)
    );
    assert_eq!(
        lpad(OffsetWidth::Wide, &[narrow(&[Some("a")]), ints(&[Some(3)])]).unwrap_err(),
        KernelError::TypeMismatch(Kernel::Lpad)
    );
    assert_eq!(
        lpad(OffsetWidth::Narrow, &[narrow(&[Some("a")]), ints(&[Some(3)]), ints(&[Some(1)])])
            .unwrap_err(),
        KernelError::TypeMismatch(Kernel::Lpad)
    );
}

#[test]
fn lpad_unequal_lengths() {
    assert_eq!(
        lpad(OffsetWidth::Narrow, &[narrow(&[Some("a")]), ints(&[Some(3), Some(4)])]).unwrap_err(),
        KernelError::LengthMismatch(Kernel::Lpad)
    );
}

#[test]
fn lower_is_ascii_only() {
    let out = rows_of(lower(OffsetWidth::Narrow, &[narrow(&[Some("ÀB"), None, Some("MiXeD 1")])]));
    assert_eq!(out, owned(&[Some("Àb"), None, Some("mixed 1")]));
}

#[test]
fn upper_is_ascii_only() {
    let out = rows_of(upper(OffsetWidth::Wide, &[strings(OffsetWidth::Wide, &[Some("àb"), None])]));
    assert_eq!(out, owned(&[Some("àB"), None]));
}

#[test]
fn trims() {
    let arg = [narrow(&[Some("  hi  "), None, Some("\t\n x \u{3000}")])];
    assert_eq!(rows_of(trim(OffsetWidth::Narrow, &arg)), owned(&[Some("hi"), None, Some("x")]));
    assert_eq!(
        rows_of(ltrim(OffsetWidth::Narrow, &arg)),
        owned(&[Some("hi  "), None, Some("x \u{3000}")])
    );
    assert_eq!(
        rows_of(rtrim(OffsetWidth::Narrow, &arg)),
        owned(&[Some("  hi"), None, Some("\t\n x")])
    );
}

#[test]
fn trim_of_blank_is_empty() {
    let arg = [narrow(&[Some("   "), Some("")])];
    assert_eq!(rows_of(trim(OffsetWidth::Narrow, &arg)), owned(&[Some(""), Some("")]));
    assert_eq!(rows_of(ltrim(OffsetWidth::Narrow, &arg)), owned(&[Some(""), Some("")]));
    assert_eq!(rows_of(rtrim(OffsetWidth::Narrow, &arg)), owned(&[Some(""), Some("")]));
}

#[test]
fn unary_type_mismatch() {
    assert_eq!(
        lower(OffsetWidth::Narrow, &[ints(&[Some(1)])]).unwrap_err(),
        KernelError::TypeMismatch(Kernel::Lower)
    );
    assert_eq!(
        trim(OffsetWidth::Wide, &[narrow(&[Some("a")])]).unwrap_err(),
        KernelError::TypeMismatch(Kernel::Trim)
    );
    assert_eq!(
        unary(UnaryOp::Rtrim, OffsetWidth::Narrow, &[ints(&[])]).unwrap_err(),
        KernelError::TypeMismatch(Kernel::Rtrim)
    );
}

#[test]
fn apply_unary_on_values() {
    assert_eq!(apply_unary(UnaryOp::Upper, "aBc-é"), "ABC-é");
    assert_eq!(apply_unary(UnaryOp::Lower, "ÀB"), "Àb");
    assert_eq!(apply_unary(UnaryOp::Ltrim, " \u{a0}a "), "a ");
}

#[test]
fn empty_columns_give_empty_columns() {
    assert_eq!(rows_of(concatenate(OffsetWidth::Narrow, &[narrow(&[]), narrow(&[])])), vec![]);
    assert_eq!(rows_of(lpad(OffsetWidth::Narrow, &[narrow(&[]), ints(&[])])), vec![]);
    assert_eq!(rows_of(upper(OffsetWidth::Narrow, &[narrow(&[])])), vec![]);
}

#[test]
fn concatenate_wide_columns() {
    let a = strings(OffsetWidth::Wide, &[Some("ab"), None, Some("é")]);
    let b = strings(OffsetWidth::Wide, &[Some("c"), Some("d"), Some("ü")]);
    let out = concatenate(OffsetWidth::Wide, &[a, b]).unwrap();
    assert_eq!(out.width, OffsetWidth::Wide);
    assert_eq!(out.rows, owned(&[Some("abc"), None, Some("éü")]));
}

#[test]
fn white_space_agrees_with_std() {
    for code in 0u32..=0x10FFFF {
        if let Some(c) = char::from_u32(code) {
            assert_eq!(white_space(c), c.is_whitespace(), "code point {:#x}", code);
        }
    }
}

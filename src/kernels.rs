//! The kernels: argument checks, then one output row per input row.
use vstd::prelude::*;
use crate::column::{
    arg_len, int_rows, is_string_of, opt_view, same_len, string_rows, ColumnArg, Kernel, KernelError, OffsetWidth, StringColumn,
};
use crate::text::{
    ascii_lower, ascii_upper, chars_of, lower_chars, lpad_chars, lpad_vec, string_from_chars,
    trim_both, trim_chars, trim_end, trim_end_chars, trim_start, trim_start_chars, upper_chars,
};

verus! {

/// Whether every argument is a string column of the given width.
pub open spec fn all_strings_of(args: Seq<ColumnArg>, width: OffsetWidth) -> bool {
    forall|j: int| 0 <= j < args.len() ==> is_string_of(#[trigger] args[j], width)
}

/// The rows of each argument, taken as string columns.
pub open spec fn string_args(args: Seq<ColumnArg>) -> Seq<Seq<Option<Seq<char>>>> {
    args.map_values(|a: ColumnArg| string_rows(a))
}

/// Row `i` of the concatenation of `cols`: null where any of them is null at
/// `i`, else their values at `i` joined in order.
pub open spec fn concat_row(cols: Seq<Seq<Option<Seq<char>>>>, i: int) -> Option<Seq<char>>
    decreases cols.len(),
{
    if cols.len() == 0 {
        Some(Seq::empty())
    } else {
        match (concat_row(cols.drop_last(), i), cols.last()[i]) {
            (Some(a), Some(b)) => Some(a + b),
            _ => None,
        }
    }
}

/// The first `n` rows of the concatenation of `cols`.
pub open spec fn concat_rows(cols: Seq<Seq<Option<Seq<char>>>>, n: nat) -> Seq<Option<Seq<char>>> {
    Seq::new(n, |i: int| concat_row(cols, i))
}

/// A null among the first `k` columns makes the whole row null.
pub proof fn lemma_concat_row_null(cols: Seq<Seq<Option<Seq<char>>>>, k: int, i: int)
    requires
        0 <= k <= cols.len(),
        concat_row(cols.take(k), i) is None,
    ensures
        concat_row(cols, i) is None,
    decreases cols.len(),
{
    if k < cols.len() {
        assert(cols.drop_last().take(k) =~= cols.take(k));
        lemma_concat_row_null(cols.drop_last(), k, i);
    } else {
        assert(cols.take(k) =~= cols);
    }
}

/// Every argument as a string column of the given width, or `None` if one is not.
fn downcast_strings<'a>(args: &'a [ColumnArg], width: OffsetWidth) -> (r: Option<
    Vec<&'a StringColumn>,
>)
    ensures
        r is Some <==> all_strings_of(args@, width),
        r matches Some(v) ==> v@.len() == args@.len() && forall|j: int|
            0 <= j < args@.len() ==> #[trigger] args@[j] == ColumnArg::Utf8(*v@[j]),
{
    let mut v: Vec<&StringColumn> = Vec::new();
    let mut j: usize = 0;
    while j < args.len()
        invariant
            j <= args@.len(),
            v@.len() == j,
            forall|jj: int| 0 <= jj < j ==> is_string_of(#[trigger] args@[jj], width),
            forall|jj: int| 0 <= jj < j ==> #[trigger] args@[jj] == ColumnArg::Utf8(*v@[jj]),
        decreases args@.len() - j,
    {
        match args[j].as_strings(width) {
            Some(c) => v.push(c),
            None => return None,
        }
        j = j + 1;
    }
    Some(v)
}

/// Concatenates string columns of the given width row by row; a null in
/// any of them at a row makes that row null.
pub fn concatenate(width: OffsetWidth, args: &[ColumnArg]) -> (r: Result<StringColumn, KernelError>)
    ensures
        args@.len() == 0 ==> r == Err::<StringColumn, KernelError>(
            KernelError::ArityError { kernel: Kernel::Concatenate, min: 1, max: None, received: 0 },
        ),
        args@.len() > 0 && !all_strings_of(args@, width) ==> r == Err::<
            StringColumn,
            KernelError,
        >(KernelError::TypeMismatch(Kernel::Concatenate)),
        args@.len() > 0 && all_strings_of(args@, width) && !same_len(args@) ==> r
            == Err::<StringColumn, KernelError>(KernelError::LengthMismatch(Kernel::Concatenate)),
        args@.len() > 0 && all_strings_of(args@, width) && same_len(args@) ==> (
        r matches Ok(c) && c.width == width && c@ == concat_rows(
            string_args(args@),
            arg_len(args@[0]),
        )),
{
    if args.len() == 0 {
        return Err(KernelError::ArityError { kernel: Kernel::Concatenate, min: 1, max: None, received: 0 });
    }
    let cols = match downcast_strings(args, width) {
        Some(v) => v,
        None => return Err(KernelError::TypeMismatch(Kernel::Concatenate)),
    };
    let ghost views = string_args(args@);
    assert(forall|j: int| 0 <= j < cols@.len() ==> #[trigger] views[j] == cols@[j]@);
    let n = cols[0].len();
    let mut j: usize = 0;
    while j < cols.len()
        invariant
            j <= cols@.len() == args@.len(),
            n == arg_len(args@[0]),
            all_strings_of(args@, width),
            forall|jj: int| 0 <= jj < args@.len() ==> #[trigger] args@[jj] == ColumnArg::Utf8(*cols@[jj]),
            forall|jj: int| 0 <= jj < j ==> arg_len(#[trigger] args@[jj]) == n,
        decreases cols@.len() - j,
    {
        if cols[j].len() != n {
            assert(arg_len(args@[j as int]) != arg_len(args@[0]));
            return Err(KernelError::LengthMismatch(Kernel::Concatenate));
        }
        j = j + 1;
    }
    assert forall|jj: int| 0 <= jj < cols@.len() implies (#[trigger] cols@[jj])@.len() == n by {
        assert(arg_len(args@[jj]) == n);
    }
    let mut rows: Vec<Option<String>> = Vec::new();
    let mut i: usize = 0;
    while i < n
        invariant
            i <= n,
            views == string_args(args@),
            cols@.len() == args@.len() == views.len(),
            forall|jj: int| 0 <= jj < cols@.len() ==> #[trigger] views[jj] == cols@[jj]@,
            forall|jj: int| 0 <= jj < cols@.len() ==> (#[trigger] cols@[jj])@.len() == n,
            rows@.len() == i,
            forall|ii: int| 0 <= ii < i ==> opt_view(#[trigger] rows@[ii]) == concat_row(views, ii),
        decreases n - i,
    {
        let mut acc = String::new();
        let mut null = false;
        let mut j: usize = 0;
        assert(views.take(0) =~= Seq::<Seq<Option<Seq<char>>>>::empty());
        while j < cols.len() && !null
            invariant
                i < n,
                j <= cols@.len() == views.len(),
                forall|jj: int| 0 <= jj < cols@.len() ==> #[trigger] views[jj] == cols@[jj]@,
                forall|jj: int| 0 <= jj < cols@.len() ==> (#[trigger] cols@[jj])@.len() == n,
                null ==> concat_row(views.take(j as int), i as int) is None,
                !null ==> concat_row(views.take(j as int), i as int) == Some(acc@),
            decreases cols@.len() - j,
        {
            assert(views.take(j + 1).drop_last() =~= views.take(j as int));
            assert(views.take(j + 1).last() == cols@[j as int]@);
            if cols[j].is_null(i) {
                null = true;
            } else {
                acc.append(cols[j].value(i));
            }
            j = j + 1;
        }
        if null {
            proof {
                lemma_concat_row_null(views, j as int, i as int);
            }
            rows.push(None);
        } else {
            assert(views.take(j as int) =~= views);
            rows.push(Some(acc));
        }
        i = i + 1;
    }
    let out = StringColumn { width: width, rows };
    assert(out@ =~= concat_rows(views, n as nat));
    Ok(out)
}

/// One row of left padding: null where the string, the length or the fill is null.
pub open spec fn lpad_row(s: Option<Seq<char>>, len: Option<i64>, fill: Option<Seq<char>>) -> Option<
    Seq<char>,
> {
    match (s, len, fill) {
        (Some(s), Some(l), Some(f)) => Some(lpad_chars(s, l as int, f)),
        _ => None,
    }
}

/// Whether `args` are the kinds left padding takes: a string column and a
/// length column, then in the three-argument form a fill column.
pub open spec fn lpad_kinds(args: Seq<ColumnArg>, width: OffsetWidth) -> bool {
    &&& is_string_of(args[0], width)
    &&& args[1] is Int64
    &&& args.len() == 3 ==> is_string_of(args[2], width)
}

/// The fill of row `i`: a single space in the two-argument form.
pub open spec fn lpad_fill(args: Seq<ColumnArg>, i: int) -> Option<Seq<char>> {
    if args.len() == 3 {
        string_rows(args[2])[i]
    } else {
        Some(seq![' '])
    }
}

/// What left padding makes of well-kinded arguments of equal length.
pub open spec fn lpad_rows(args: Seq<ColumnArg>) -> Seq<Option<Seq<char>>> {
    Seq::new(
        string_rows(args[0]).len(),
        |i: int| lpad_row(string_rows(args[0])[i], int_rows(args[1])[i], lpad_fill(args, i)),
    )
}

/// Left-pads each string to its row's length, with a space (two arguments)
/// or with its row's fill pattern (three arguments); longer strings are cut
/// to their first characters.
pub fn lpad(width: OffsetWidth, args: &[ColumnArg]) -> (r: Result<StringColumn, KernelError>)
    ensures
        !(args@.len() == 2 || args@.len() == 3) ==> r == Err::<StringColumn, KernelError>(
            KernelError::ArityError {
                kernel: Kernel::Lpad,
                min: 2,
                max: Some(3),
                received: args@.len() as usize,
            },
        ),
        (args@.len() == 2 || args@.len() == 3) && !lpad_kinds(args@, width) ==> r == Err::<
            StringColumn,
            KernelError,
        >(KernelError::TypeMismatch(Kernel::Lpad)),
        (args@.len() == 2 || args@.len() == 3) && lpad_kinds(args@, width) && !same_len(args@)
            ==> r == Err::<StringColumn, KernelError>(KernelError::LengthMismatch(Kernel::Lpad)),
        (args@.len() == 2 || args@.len() == 3) && lpad_kinds(args@, width) && same_len(args@) ==> (
        r matches Ok(c) && c.width == width && c@ == lpad_rows(args@)),
{
    let count = args.len();
    if count != 2 && count != 3 {
        return Err(KernelError::ArityError { kernel: Kernel::Lpad, min: 2, max: Some(3), received: count });
    }
    let strings = match args[0].as_strings(width) {
        Some(c) => c,
        None => return Err(KernelError::TypeMismatch(Kernel::Lpad)),
    };
    let lengths = match args[1].as_int64() {
        Some(c) => c,
        None => return Err(KernelError::TypeMismatch(Kernel::Lpad)),
    };
    let fills: Option<&StringColumn> = if count == 3 {
        match args[2].as_strings(width) {
            Some(c) => Some(c),
            None => return Err(KernelError::TypeMismatch(Kernel::Lpad)),
        }
    } else {
        None
    };
    let n = strings.len();
    if lengths.len() != n {
        assert(arg_len(args@[1]) != arg_len(args@[0]));
        return Err(KernelError::LengthMismatch(Kernel::Lpad));
    }
    match fills {
        Some(f) => if f.len() != n {
            assert(arg_len(args@[2]) != arg_len(args@[0]));
            return Err(KernelError::LengthMismatch(Kernel::Lpad));
        },
        None => {},
    }
    assert(same_len(args@));
    let space: Vec<char> = vec![' '];
    let mut rows: Vec<Option<String>> = Vec::new();
    let mut i: usize = 0;
    while i < n
        invariant
            i <= n == strings@.len() == lengths@.len(),
            args@[0] == ColumnArg::Utf8(*strings),
            args@[1] == ColumnArg::Int64(*lengths),
            fills is Some <==> args@.len() == 3,
            fills matches Some(f) ==> args@[2] == ColumnArg::Utf8(*f) && f@.len() == n,
            space@ == seq![' '],
            rows@.len() == i,
            forall|ii: int| 0 <= ii < i ==> opt_view(#[trigger] rows@[ii]) == lpad_rows(args@)[ii],
        decreases n - i,
    {
        let fill: Option<Vec<char>> = match fills {
            Some(f) => if f.is_null(i) {
                None
            } else {
                Some(chars_of(f.value(i)))
            },
            None => Some(space.clone()),
        };
        let row = if strings.is_null(i) {
            None
        } else {
            match (lengths.rows[i], fill) {
                (Some(len), Some(fill)) => {
                    let s = chars_of(strings.value(i));
                    Some(string_from_chars(&lpad_vec(&s, len, &fill)))
                },
                _ => None,
            }
        };
        rows.push(row);
        i = i + 1;
    }
    let out = StringColumn { width, rows };
    assert(out@ =~= lpad_rows(args@));
    Ok(out)
}

/// The character-mapping functions of the unary kernels.
#[derive(Clone, Copy, Debug, PartialEq, Eq, Structural)]
pub enum UnaryOp {
    Lower,
    Upper,
    Trim,
    Ltrim,
    Rtrim,
}

/// What a unary operation makes of one string.
pub open spec fn unary_chars(op: UnaryOp, s: Seq<char>) -> Seq<char> {
    match op {
        UnaryOp::Lower => ascii_lower(s),
        UnaryOp::Upper => ascii_upper(s),
        UnaryOp::Trim => trim_both(s),
        UnaryOp::Ltrim => trim_start(s),
        UnaryOp::Rtrim => trim_end(s),
    }
}

/// A unary operation applied to every non-null row; null rows stay null.
pub open spec fn unary_rows(op: UnaryOp, rows: Seq<Option<Seq<char>>>) -> Seq<Option<Seq<char>>> {
    rows.map_values(
        |o: Option<Seq<char>>|
            match o {
                Some(s) => Some(unary_chars(op, s)),
                None => None,
            },
    )
}

/// The kernel that a unary operation is named as in errors.
pub open spec fn unary_kernel_name(op: UnaryOp) -> Kernel {
    match op {
        UnaryOp::Lower => Kernel::Lower,
        UnaryOp::Upper => Kernel::Upper,
        UnaryOp::Trim => Kernel::Trim,
        UnaryOp::Ltrim => Kernel::Ltrim,
        UnaryOp::Rtrim => Kernel::Rtrim,
    }
}

fn kernel_name(op: UnaryOp) -> (r: Kernel)
    ensures
        r == unary_kernel_name(op),
{
    match op {
        UnaryOp::Lower => Kernel::Lower,
        UnaryOp::Upper => Kernel::Upper,
        UnaryOp::Trim => Kernel::Trim,
        UnaryOp::Ltrim => Kernel::Ltrim,
        UnaryOp::Rtrim => Kernel::Rtrim,
    }
}

/// Applies a unary operation to one string.
pub fn apply_unary(op: UnaryOp, s: &str) -> (r: String)
    ensures
        r@ == unary_chars(op, s@),
{
    let cs = chars_of(s);
    let out = match op {
        UnaryOp::Lower => lower_chars(&cs),
        UnaryOp::Upper => upper_chars(&cs),
        UnaryOp::Trim => trim_chars(&cs),
        UnaryOp::Ltrim => trim_start_chars(&cs),
        UnaryOp::Rtrim => trim_end_chars(&cs),
    };
    string_from_chars(&out)
}

/// The unary kernel: `op` applied to each row of the first argument, which
/// must be a string column of the given width.
pub fn unary(op: UnaryOp, width: OffsetWidth, args: &[ColumnArg]) -> (r: Result<
    StringColumn,
    KernelError,
>)
    requires
        args@.len() >= 1,
    ensures
        !is_string_of(args@[0], width) ==> r == Err::<StringColumn, KernelError>(
            KernelError::TypeMismatch(unary_kernel_name(op)),
        ),
        is_string_of(args@[0], width) ==> (r matches Ok(c) && c.width == width && c@
            == unary_rows(op, string_rows(args@[0]))),
{
    let strings = match args[0].as_strings(width) {
        Some(c) => c,
        None => return Err(KernelError::TypeMismatch(kernel_name(op))),
    };
    let n = strings.len();
    let mut rows: Vec<Option<String>> = Vec::new();
    let mut i: usize = 0;
    while i < n
        invariant
            i <= n == strings@.len(),
            rows@.len() == i,
            forall|ii: int|
                0 <= ii < i ==> opt_view(#[trigger] rows@[ii]) == unary_rows(op, strings@)[ii],
        decreases n - i,
    {
        let row = if strings.is_null(i) {
            None
        } else {
            Some(apply_unary(op, strings.value(i)))
        };
        rows.push(row);
        i = i + 1;
    }
    let out = StringColumn { width, rows };
    assert(out@ =~= unary_rows(op, strings@));
    Ok(out)
}

/// Lowercases ASCII letters in each row; other characters pass through.
pub fn lower(width: OffsetWidth, args: &[ColumnArg]) -> (r: Result<StringColumn, KernelError>)
    requires
        args@.len() >= 1,
    ensures
        !is_string_of(args@[0], width) ==> r == Err::<StringColumn, KernelError>(
            KernelError::TypeMismatch(Kernel::Lower),
        ),
        is_string_of(args@[0], width) ==> (r matches Ok(c) && c.width == width && c@
            == unary_rows(UnaryOp::Lower, string_rows(args@[0]))),
{
    unary(UnaryOp::Lower, width, args)
}

/// Uppercases ASCII letters in each row; other characters pass through.
pub fn upper(width: OffsetWidth, args: &[ColumnArg]) -> (r: Result<StringColumn, KernelError>)
    requires
        args@.len() >= 1,
    ensures
        !is_string_of(args@[0], width) ==> r == Err::<StringColumn, KernelError>(
            KernelError::TypeMismatch(Kernel::Upper),
        ),
        is_string_of(args@[0], width) ==> (r matches Ok(c) && c.width == width && c@
            == unary_rows(UnaryOp::Upper, string_rows(args@[0]))),
{
    unary(UnaryOp::Upper, width, args)
}

/// Removes white space from both ends of each row.
pub fn trim(width: OffsetWidth, args: &[ColumnArg]) -> (r: Result<StringColumn, KernelError>)
    requires
        args@.len() >= 1,
    ensures
        !is_string_of(args@[0], width) ==> r == Err::<StringColumn, KernelError>(
            KernelError::TypeMismatch(Kernel::Trim),
        ),
        is_string_of(args@[0], width) ==> (r matches Ok(c) && c.width == width && c@
            == unary_rows(UnaryOp::Trim, string_rows(args@[0]))),
{
    unary(UnaryOp::Trim, width, args)
}

/// Removes leading white space from each row.
pub fn ltrim(width: OffsetWidth, args: &[ColumnArg]) -> (r: Result<StringColumn, KernelError>)
    requires
        args@.len() >= 1,
    ensures
        !is_string_of(args@[0], width) ==> r == Err::<StringColumn, KernelError>(
            KernelError::TypeMismatch(Kernel::Ltrim),
        ),
        is_string_of(args@[0], width) ==> (r matches Ok(c) && c.width == width && c@
            == unary_rows(UnaryOp::Ltrim, string_rows(args@[0]))),
{
    unary(UnaryOp::Ltrim, width, args)
}

/// Removes trailing white space from each row.
pub fn rtrim(width: OffsetWidth, args: &[ColumnArg]) -> (r: Result<StringColumn, KernelError>)
    requires
        args@.len() >= 1,
    ensures
        !is_string_of(args@[0], width) ==> r == Err::<StringColumn, KernelError>(
            KernelError::TypeMismatch(Kernel::Rtrim),
        ),
        is_string_of(args@[0], width) ==> (r matches Ok(c) && c.width == width && c@
            == unary_rows(UnaryOp::Rtrim, string_rows(args@[0]))),
{
    unary(UnaryOp::Rtrim, width, args)
}

} // verus!

//! Properties that hold of the kernels across all inputs.
use vstd::prelude::*;
use crate::column::{same_len, ColumnArg, StringColumn};
use crate::kernels::{
    all_strings_of, concat_row, concat_rows, lemma_concat_row_null, lpad_row, string_args,
    unary_rows, UnaryOp,
};
use crate::text::lpad_chars;

verus! {

/// Concatenating a single column gives that column back: the same values,
/// and nulls exactly where it has them.
pub proof fn concatenate_single_is_identity(a: StringColumn)
    ensures
        all_strings_of(seq![ColumnArg::Utf8(a)], a.width),
        same_len(seq![ColumnArg::Utf8(a)]),
        concat_rows(string_args(seq![ColumnArg::Utf8(a)]), a@.len()) == a@,
{
    let args = seq![ColumnArg::Utf8(a)];
    let cols = string_args(args);
    assert(cols.len() == 1 && cols[0] == a@);
    assert forall|i: int| 0 <= i < a@.len() implies #[trigger] concat_row(cols, i) == a@[i] by {
        assert(cols.drop_last().len() == 0);
        assert(concat_row(cols.drop_last(), i) == Some(Seq::<char>::empty()));
        match a@[i] {
            Some(x) => assert(Seq::<char>::empty() + x =~= x),
            None => {},
        }
    }
    assert(concat_rows(cols, a@.len()) =~= a@);
}

/// Concatenating two columns of one width and equal length gives a null row
/// exactly where either is null, and elsewhere the first value followed by
/// the second.
pub proof fn concatenate_pair_rows(a: StringColumn, b: StringColumn)
    requires
        a.width == b.width,
        a@.len() == b@.len(),
    ensures
        all_strings_of(seq![ColumnArg::Utf8(a), ColumnArg::Utf8(b)], a.width),
        same_len(seq![ColumnArg::Utf8(a), ColumnArg::Utf8(b)]),
        forall|i: int|
            0 <= i < a@.len() ==> {
                let r = concat_rows(
                    string_args(seq![ColumnArg::Utf8(a), ColumnArg::Utf8(b)]),
                    a@.len(),
                )[i];
                &&& (r is None <==> (#[trigger] a@[i] is None || b@[i] is None))
                &&& (a@[i] is Some && b@[i] is Some) ==> r == Some(a@[i]->0 + b@[i]->0)
            },
{
    let args = seq![ColumnArg::Utf8(a), ColumnArg::Utf8(b)];
    let cols = string_args(args);
    assert(cols.len() == 2 && cols[0] == a@ && cols[1] == b@);
    assert forall|i: int| 0 <= i < a@.len() implies {
        let r = concat_rows(cols, a@.len())[i];
        &&& (r is None <==> (#[trigger] a@[i] is None || b@[i] is None))
        &&& (a@[i] is Some && b@[i] is Some) ==> r == Some(a@[i]->0 + b@[i]->0)
    } by {
        let first = cols.drop_last();
        assert(first.len() == 1 && first.last() == a@);
        assert(first.drop_last().len() == 0);
        assert(cols.last() == b@);
        assert(concat_row(first.drop_last(), i) == Some(Seq::<char>::empty()));
        match a@[i] {
            Some(x) => {
                assert(Seq::<char>::empty() + x =~= x);
                assert(concat_row(first, i) == Some(x));
            },
            None => assert(concat_row(first, i) is None),
        }
        assert(concat_rows(cols, a@.len())[i] == concat_row(cols, i));
    }
}

/// Left padding to length zero gives the empty string, whatever the string
/// and the fill.
pub proof fn lpad_to_zero_is_empty(s: Seq<char>, fill: Seq<char>)
    ensures
        lpad_chars(s, 0, fill) == Seq::<char>::empty(),
        lpad_row(Some(s), Some(0i64), Some(fill)) == Some(Seq::<char>::empty()),
{
}

/// A null in any column at a row makes that row of their concatenation null.
pub proof fn concatenate_null_propagates(cols: Seq<Seq<Option<Seq<char>>>>, i: int, j: int)
    requires
        0 <= j < cols.len(),
        cols[j][i] is None,
    ensures
        concat_row(cols, i) is None,
{
    let prefix = cols.take(j + 1);
    assert(prefix.last() == cols[j]);
    lemma_concat_row_null(cols, j + 1, i);
}

/// A null string, length or fill makes the padded row null.
pub proof fn lpad_null_propagates(s: Option<Seq<char>>, len: Option<i64>, fill: Option<Seq<char>>)
    requires
        s is None || len is None || fill is None,
    ensures
        lpad_row(s, len, fill) is None,
{
}

/// A unary kernel keeps every null row null.
pub proof fn unary_null_propagates(op: UnaryOp, rows: Seq<Option<Seq<char>>>, i: int)
    requires
        0 <= i < rows.len(),
        rows[i] is None,
    ensures
        unary_rows(op, rows)[i] is None,
{
}

} // verus!

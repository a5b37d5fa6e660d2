//! Columns of optional values, the arguments kernels take, and their errors.
use vstd::prelude::*;

verus! {

/// The offset width of a string column: narrow (32-bit) or wide (64-bit).
#[derive(Clone, Copy, Debug, PartialEq, Eq, Structural)]
pub enum OffsetWidth {
    Narrow,
    Wide,
}

/// An immutable column of optional strings: `None` is a null row.
#[derive(Clone, Debug)]
pub struct StringColumn {
    pub width: OffsetWidth,
    pub rows: Vec<Option<String>>,
}

/// The view of one optional string.
pub open spec fn opt_view(o: Option<String>) -> Option<Seq<char>> {
    match o {
        Some(s) => Some(s@),
        None => None,
    }
}

impl View for StringColumn {
    type V = Seq<Option<Seq<char>>>;

    open spec fn view(&self) -> Seq<Option<Seq<char>>> {
        self.rows@.map_values(|o: Option<String>| opt_view(o))
    }
}

impl StringColumn {
    pub fn new(width: OffsetWidth, rows: Vec<Option<String>>) -> (r: StringColumn)
        ensures
            r.width == width,
            r.rows == rows,
    {
        StringColumn { width, rows }
    }

    pub fn len(&self) -> (r: usize)
        ensures
            r == self@.len(),
    {
        self.rows.len()
    }

    pub fn is_null(&self, i: usize) -> (r: bool)
        requires
            i < self@.len(),
        ensures
            r == (self@[i as int] is None),
    {
        self.rows[i].is_none()
    }

    /// The string at row `i`, which is not null.
    pub fn value(&self, i: usize) -> (r: &str)
        requires
            i < self@.len(),
            self@[i as int] is Some,
        ensures
            Some(r@) == self@[i as int],
    {
        match &self.rows[i] {
            Some(s) => s.as_str(),
            None => "",
        }
    }
}

/// An immutable column of optional 64-bit integers: `None` is a null row.
#[derive(Clone, Debug)]
pub struct Int64Column {
    pub rows: Vec<Option<i64>>,
}

impl View for Int64Column {
    type V = Seq<Option<i64>>;

    open spec fn view(&self) -> Seq<Option<i64>> {
        self.rows@
    }
}

impl Int64Column {
    pub fn new(rows: Vec<Option<i64>>) -> (r: Int64Column)
        ensures
            r.rows == rows,
    {
        Int64Column { rows }
    }

    pub fn len(&self) -> (r: usize)
        ensures
            r == self@.len(),
    {
        self.rows.len()
    }
}

/// One argument handed to a kernel.
#[derive(Clone, Debug)]
pub enum ColumnArg {
    Utf8(StringColumn),
    Int64(Int64Column),
    /// A column of a kind that no kernel takes, with its number of rows.
    Other(usize),
}

/// Whether `a` is a string column of the given offset width.
pub open spec fn is_string_of(a: ColumnArg, width: OffsetWidth) -> bool {
    a matches ColumnArg::Utf8(c) && c.width == width
}

/// The rows of a string argument (empty for any other).
pub open spec fn string_rows(a: ColumnArg) -> Seq<Option<Seq<char>>> {
    match a {
        ColumnArg::Utf8(c) => c@,
        _ => Seq::empty(),
    }
}

/// The rows of an integer argument (empty for any other).
pub open spec fn int_rows(a: ColumnArg) -> Seq<Option<i64>> {
    match a {
        ColumnArg::Int64(c) => c@,
        _ => Seq::empty(),
    }
}

/// The number of rows of an argument.
pub open spec fn arg_len(a: ColumnArg) -> nat {
    match a {
        ColumnArg::Utf8(c) => c@.len(),
        ColumnArg::Int64(c) => c@.len(),
        ColumnArg::Other(n) => n as nat,
    }
}

/// Whether all arguments have as many rows as the first.
pub open spec fn same_len(args: Seq<ColumnArg>) -> bool {
    forall|j: int| 0 <= j < args.len() ==> arg_len(#[trigger] args[j]) == arg_len(args[0])
}

impl ColumnArg {
    pub fn len(&self) -> (r: usize)
        ensures
            r == arg_len(*self),
    {
        match self {
            ColumnArg::Utf8(c) => c.len(),
            ColumnArg::Int64(c) => c.len(),
            ColumnArg::Other(n) => *n,
        }
    }

    /// This argument as a string column of the given width, if it is one.
    pub fn as_strings(&self, width: OffsetWidth) -> (r: Option<&StringColumn>)
        ensures
            r is Some <==> is_string_of(*self, width),
            r matches Some(c) ==> *self == ColumnArg::Utf8(*c),
    {
        match self {
            ColumnArg::Utf8(c) => if c.width == width {
                Some(c)
            } else {
                None
            },
            _ => None,
        }
    }

    /// This argument as an integer column, if it is one.
    pub fn as_int64(&self) -> (r: Option<&Int64Column>)
        ensures
            r is Some <==> self is Int64,
            r matches Some(c) ==> *self == ColumnArg::Int64(*c),
    {
        match self {
            ColumnArg::Int64(c) => Some(c),
            _ => None,
        }
    }
}

/// The kernels, as named in errors.
#[derive(Clone, Copy, Debug, PartialEq, Eq, Structural)]
pub enum Kernel {
    Concatenate,
    Lpad,
    Lower,
    Upper,
    Trim,
    Ltrim,
    Rtrim,
}

/// Why a kernel refused its arguments.
#[derive(Clone, Copy, Debug, PartialEq, Eq, Structural)]
pub enum KernelError {
    /// An argument is not of the kind the kernel expects.
    TypeMismatch(Kernel),
    /// The kernel was given a number of arguments it does not take: it takes
    /// at least `min`, and at most `max` where there is a bound.
    ArityError { kernel: Kernel, min: usize, max: Option<usize>, received: usize },
    /// The arguments do not all have the same number of rows.
    LengthMismatch(Kernel),
}

} // verus!

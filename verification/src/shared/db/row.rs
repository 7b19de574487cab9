//! Result rows as ordered, named columns of decoded values, and the typed
//! reading of one column.

use vstd::prelude::*;
use vstd::hash_map::StringHashMap;
use crate::shared::decimal::{Decimal, DecimalView};
use crate::shared::temporal::{DateTimeUtc, NaiveDate};

verus! {

/// A value as the store returned it, decoded by the column's own type.
#[derive(Debug, Clone, PartialEq, Eq)]
pub enum SqlValue {
    Null,
    Bool(bool),
    Int(i64),
    UInt(u64),
    Text(String),
    Bytes(Vec<u8>),
    Decimal(Decimal),
    Date(NaiveDate),
    DateTime(DateTimeUtc),
    /// A value that could not be decoded, or whose type no field reads. No
    /// field accepts it: reading it is a type mismatch in its column.
    Unreadable,
}

/// One column of a row: the name the store gave it and its value.
#[derive(Debug, Clone, PartialEq, Eq)]
pub struct Column {
    pub name: String,
    pub value: SqlValue,
}

/// One row of a result set: its columns in the order the store sent them.
#[derive(Debug, Clone, PartialEq, Eq)]
pub struct Row {
    pub columns: Vec<Column>,
}

/// What a [`SqlValue`] stands for.
pub enum SqlValueView {
    Null,
    Bool(bool),
    Int(i64),
    UInt(u64),
    Text(Seq<char>),
    Bytes(Seq<u8>),
    Decimal(DecimalView),
    Date(NaiveDate),
    DateTime(DateTimeUtc),
    Unreadable,
}

/// What a [`Column`] stands for.
pub struct ColumnView {
    pub name: Seq<char>,
    pub value: SqlValueView,
}

impl DeepView for SqlValue {
    type V = SqlValueView;

    open spec fn deep_view(&self) -> SqlValueView {
        match *self {
            SqlValue::Null => SqlValueView::Null,
            SqlValue::Bool(b) => SqlValueView::Bool(b),
            SqlValue::Int(n) => SqlValueView::Int(n),
            SqlValue::UInt(n) => SqlValueView::UInt(n),
            SqlValue::Text(s) => SqlValueView::Text(s@),
            SqlValue::Bytes(b) => SqlValueView::Bytes(b@),
            SqlValue::Decimal(d) => SqlValueView::Decimal(d@),
            SqlValue::Date(d) => SqlValueView::Date(d),
            SqlValue::DateTime(t) => SqlValueView::DateTime(t),
            SqlValue::Unreadable => SqlValueView::Unreadable,
        }
    }
}

impl View for SqlValue {
    type V = SqlValueView;

    open spec fn view(&self) -> SqlValueView {
        self.deep_view()
    }
}

impl DeepView for Column {
    type V = ColumnView;

    open spec fn deep_view(&self) -> ColumnView {
        ColumnView { name: self.name@, value: self.value@ }
    }
}

impl View for Column {
    type V = ColumnView;

    open spec fn view(&self) -> ColumnView {
        self.deep_view()
    }
}

impl DeepView for Row {
    type V = Seq<ColumnView>;

    open spec fn deep_view(&self) -> Seq<ColumnView> {
        self.columns.deep_view()
    }
}

impl View for Row {
    type V = Seq<ColumnView>;

    open spec fn view(&self) -> Seq<ColumnView> {
        self.deep_view()
    }
}

/// The type an entity field asks of a column.
#[derive(Debug, Clone, Copy, PartialEq, Eq, Structural)]
pub enum ColumnType {
    Text,
    Bytes,
    Bool,
    UnsignedByte,
    Decimal,
    Date,
    DateTime,
    Role,
}

/// Why a column could not be read as the type asked for.
#[derive(Debug, Clone, Copy, PartialEq, Eq, Structural)]
pub enum MappingProblem {
    /// The row has no column of that name.
    MissingColumn,
    /// The column is null and the field is not optional.
    UnexpectedNull,
    /// The column holds a value of another type.
    TypeMismatch,
    /// The column holds a value of the right type that the field cannot hold.
    OutOfRange,
}

/// A row did not match the shape an entity expects: the column at fault, the
/// type that was asked of it, and what went wrong.
#[derive(Debug, Clone, PartialEq, Eq)]
pub struct MappingError {
    pub column: String,
    pub expected: ColumnType,
    pub problem: MappingProblem,
}

/// What a [`MappingError`] stands for.
pub struct MappingErrorView {
    pub column: Seq<char>,
    pub expected: ColumnType,
    pub problem: MappingProblem,
}

impl DeepView for MappingError {
    type V = MappingErrorView;

    open spec fn deep_view(&self) -> MappingErrorView {
        MappingErrorView { column: self.column@, expected: self.expected, problem: self.problem }
    }
}

impl View for MappingError {
    type V = MappingErrorView;

    open spec fn view(&self) -> MappingErrorView {
        self.deep_view()
    }
}

/// A column-name index: from the name of a column, in lower case, to the
/// position of the column in its row.
pub type ColumnIndexMap = StringHashMap<usize>;

/// The value of the column called `name`, found through `index`; none where
/// the index lacks the name or the row is too short.
pub open spec fn cell(row: Seq<ColumnView>, index: Map<Seq<char>, usize>, name: Seq<char>)
    -> Option<SqlValueView> {
    if index.contains_key(name) && index[name] < row.len() {
        Some(row[index[name] as int].value)
    } else {
        None
    }
}

/// The error for column `name` asked for as `expected`.
pub open spec fn failure(name: Seq<char>, expected: ColumnType, problem: MappingProblem)
    -> MappingErrorView {
    MappingErrorView { column: name, expected, problem }
}

/// Reads a column that must hold a value: `decoded` is what the value gives
/// as the type asked for, if it has that type.
pub open spec fn required<T>(
    cell: Option<SqlValueView>,
    decoded: Option<T>,
    name: Seq<char>,
    expected: ColumnType,
) -> Result<T, MappingErrorView> {
    match cell {
        None => Err(failure(name, expected, MappingProblem::MissingColumn)),
        Some(SqlValueView::Null) => Err(failure(name, expected, MappingProblem::UnexpectedNull)),
        Some(_) => match decoded {
            Some(v) => Ok(v),
            None => Err(failure(name, expected, MappingProblem::TypeMismatch)),
        },
    }
}

/// Reads a column that may be null.
pub open spec fn optional<T>(
    cell: Option<SqlValueView>,
    decoded: Option<T>,
    name: Seq<char>,
    expected: ColumnType,
) -> Result<Option<T>, MappingErrorView> {
    match cell {
        None => Err(failure(name, expected, MappingProblem::MissingColumn)),
        Some(SqlValueView::Null) => Ok(None),
        Some(_) => match decoded {
            Some(v) => Ok(Some(v)),
            None => Err(failure(name, expected, MappingProblem::TypeMismatch)),
        },
    }
}

/// The text a value holds, if it is text.
pub open spec fn as_text(value: Option<SqlValueView>) -> Option<Seq<char>> {
    match value {
        Some(SqlValueView::Text(s)) => Some(s),
        _ => None,
    }
}

/// The bytes a value holds, if it is binary.
pub open spec fn as_bytes(value: Option<SqlValueView>) -> Option<Seq<u8>> {
    match value {
        Some(SqlValueView::Bytes(b)) => Some(b),
        _ => None,
    }
}

/// The truth value a value holds: a boolean, or an integer, where zero is
/// false.
pub open spec fn as_bool(value: Option<SqlValueView>) -> Option<bool> {
    match value {
        Some(SqlValueView::Bool(b)) => Some(b),
        Some(SqlValueView::Int(n)) => Some(n != 0),
        Some(SqlValueView::UInt(n)) => Some(n != 0),
        _ => None,
    }
}

/// The decimal a value holds, if it is a decimal.
pub open spec fn as_decimal(value: Option<SqlValueView>) -> Option<DecimalView> {
    match value {
        Some(SqlValueView::Decimal(d)) => Some(d),
        _ => None,
    }
}

/// The date a value holds, if it is a date.
pub open spec fn as_date(value: Option<SqlValueView>) -> Option<NaiveDate> {
    match value {
        Some(SqlValueView::Date(d)) => Some(d),
        _ => None,
    }
}

/// The instant a value holds, if it is an instant.
pub open spec fn as_datetime(value: Option<SqlValueView>) -> Option<DateTimeUtc> {
    match value {
        Some(SqlValueView::DateTime(t)) => Some(t),
        _ => None,
    }
}

/// Column `name` read as text.
pub open spec fn text_of(row: Seq<ColumnView>, index: Map<Seq<char>, usize>, name: Seq<char>) -> Result<
    Seq<char>,
    MappingErrorView,
> {
    required(cell(row, index, name), as_text(cell(row, index, name)), name, ColumnType::Text)
}

/// Column `name` read as text that may be null.
pub open spec fn opt_text_of(row: Seq<ColumnView>, index: Map<Seq<char>, usize>, name: Seq<char>)
    -> Result<Option<Seq<char>>, MappingErrorView> {
    optional(cell(row, index, name), as_text(cell(row, index, name)), name, ColumnType::Text)
}

/// Column `name` read as bytes.
pub open spec fn bytes_of(row: Seq<ColumnView>, index: Map<Seq<char>, usize>, name: Seq<char>) -> Result<
    Seq<u8>,
    MappingErrorView,
> {
    required(cell(row, index, name), as_bytes(cell(row, index, name)), name, ColumnType::Bytes)
}

/// Column `name` read as bytes that may be null.
pub open spec fn opt_bytes_of(row: Seq<ColumnView>, index: Map<Seq<char>, usize>, name: Seq<char>)
    -> Result<Option<Seq<u8>>, MappingErrorView> {
    optional(cell(row, index, name), as_bytes(cell(row, index, name)), name, ColumnType::Bytes)
}

/// Column `name` read as a truth value.
pub open spec fn bool_of(row: Seq<ColumnView>, index: Map<Seq<char>, usize>, name: Seq<char>) -> Result<
    bool,
    MappingErrorView,
> {
    required(cell(row, index, name), as_bool(cell(row, index, name)), name, ColumnType::Bool)
}

/// Column `name` read as an unsigned byte: an integer between 0 and 255.
pub open spec fn u8_of(row: Seq<ColumnView>, index: Map<Seq<char>, usize>, name: Seq<char>) -> Result<
    u8,
    MappingErrorView,
> {
    match cell(row, index, name) {
        Some(SqlValueView::UInt(n)) => if n <= u8::MAX {
            Ok(n as u8)
        } else {
            Err(failure(name, ColumnType::UnsignedByte, MappingProblem::OutOfRange))
        },
        Some(SqlValueView::Int(n)) => if 0 <= n <= u8::MAX {
            Ok(n as u8)
        } else {
            Err(failure(name, ColumnType::UnsignedByte, MappingProblem::OutOfRange))
        },
        c => required(c, None::<u8>, name, ColumnType::UnsignedByte),
    }
}

/// Column `name` read as a decimal.
pub open spec fn decimal_of(row: Seq<ColumnView>, index: Map<Seq<char>, usize>, name: Seq<char>)
    -> Result<DecimalView, MappingErrorView> {
    required(cell(row, index, name), as_decimal(cell(row, index, name)), name, ColumnType::Decimal)
}

/// Column `name` read as a decimal that may be null.
pub open spec fn opt_decimal_of(row: Seq<ColumnView>, index: Map<Seq<char>, usize>, name: Seq<char>)
    -> Result<Option<DecimalView>, MappingErrorView> {
    optional(cell(row, index, name), as_decimal(cell(row, index, name)), name, ColumnType::Decimal)
}

/// Column `name` read as a date.
pub open spec fn date_of(row: Seq<ColumnView>, index: Map<Seq<char>, usize>, name: Seq<char>) -> Result<
    NaiveDate,
    MappingErrorView,
> {
    required(cell(row, index, name), as_date(cell(row, index, name)), name, ColumnType::Date)
}

/// Column `name` read as an instant that may be null.
pub open spec fn opt_datetime_of(row: Seq<ColumnView>, index: Map<Seq<char>, usize>, name: Seq<char>)
    -> Result<Option<DateTimeUtc>, MappingErrorView> {
    optional(
        cell(row, index, name),
        as_datetime(cell(row, index, name)),
        name,
        ColumnType::DateTime,
    )
}

/// The value of a column that holds an instant, or null where there is
/// none.
pub open spec fn instant_value(instant: Option<DateTimeUtc>) -> SqlValueView {
    match instant {
        Some(t) => SqlValueView::DateTime(t),
        None => SqlValueView::Null,
    }
}

/// The first of two possible errors.
pub open spec fn first<E>(a: Option<E>, b: Option<E>) -> Option<E> {
    if a is Some {
        a
    } else {
        b
    }
}

/// Choosing the earliest of several possible errors.
pub trait Earliest<E>: Sized {
    /// This error if there is one, else the later one.
    spec fn or_later(self, later: Option<E>) -> Option<E>;
}

impl<E> Earliest<E> for Option<E> {
    open spec fn or_later(self, later: Option<E>) -> Option<E> {
        first(self, later)
    }
}

/// The error of a result, if it is one.
pub open spec fn error_of<T, E>(r: Result<T, E>) -> Option<E> {
    match r {
        Ok(_) => None,
        Err(e) => Some(e),
    }
}

/// What a result stands for: the view of its value or of its error.
pub open spec fn outcome<T: DeepView, E: DeepView>(r: Result<T, E>) -> Result<T::V, E::V> {
    match r {
        Ok(v) => Ok(v.deep_view()),
        Err(e) => Err(e.deep_view()),
    }
}

/// The deep view of a byte vector is its view.
pub broadcast proof fn lemma_bytes_deep_view(bytes: Vec<u8>)
    ensures
        #[trigger] bytes.deep_view() == bytes@,
{
    assert(bytes.deep_view() =~= bytes@);
}

/// A copy of `bytes`.
pub fn copy_bytes(bytes: &Vec<u8>) -> (r: Vec<u8>)
    ensures
        r@ == bytes@,
{
    let mut out: Vec<u8> = Vec::with_capacity(bytes.len());
    let mut i: usize = 0;
    while i < bytes.len()
        invariant
            i <= bytes.len(),
            out@ == bytes@.subrange(0, i as int),
        decreases bytes.len() - i,
    {
        out.push(bytes[i]);
        assert(out@ =~= bytes@.subrange(0, i + 1));
        i += 1;
    }
    assert(out@ =~= bytes@);
    out
}

/// A copy of an optional text.
pub fn clone_text(text: &Option<String>) -> (r: Option<String>)
    ensures
        r.deep_view() == text.deep_view(),
{
    match text {
        Some(t) => Some(t.clone()),
        None => None,
    }
}

/// A copy of optional bytes.
pub fn clone_bytes(bytes: &Option<Vec<u8>>) -> (r: Option<Vec<u8>>)
    ensures
        r.deep_view() == bytes.deep_view(),
{
    broadcast use lemma_bytes_deep_view;

    match bytes {
        Some(b) => Some(copy_bytes(b)),
        None => None,
    }
}

impl Row {
    /// The value of the column called `name`, found through `index_map`.
    pub fn cell(&self, index_map: &ColumnIndexMap, name: &str) -> (r: Option<&SqlValue>)
        ensures
            r.deep_view() == cell(self@, index_map@, name@),
    {
        match index_map.get(name) {
            Some(i) => if *i < self.columns.len() {
                Some(&self.columns[*i].value)
            } else {
                None
            },
            None => None,
        }
    }
    /// The error for column `name` asked for as `expected`.
    fn failure(name: &str, expected: ColumnType, problem: MappingProblem) -> (e: MappingError)
        ensures
            e@ == failure(name@, expected, problem),
    {
        MappingError { column: name.to_string(), expected, problem }
    }

    /// The error for a column that holds no value of the type asked for:
    /// missing, null, or of another type.
    fn refusal(cell: Option<&SqlValue>, name: &str, expected: ColumnType) -> (e: MappingError)
        ensures
            Err::<u8, MappingErrorView>(e@) == required(
                cell.deep_view(),
                None::<u8>,
                name@,
                expected,
            ),
    {
        match cell {
            None => Self::failure(name, expected, MappingProblem::MissingColumn),
            Some(SqlValue::Null) => Self::failure(name, expected, MappingProblem::UnexpectedNull),
            Some(_) => Self::failure(name, expected, MappingProblem::TypeMismatch),
        }
    }

    /// Column `name` as text.
    pub fn get_text(&self, index_map: &ColumnIndexMap, name: &str) -> (r: Result<
        String,
        MappingError,
    >)
        ensures
            outcome(r) == text_of(self@, index_map@, name@),
    {
        let cell = self.cell(index_map, name);
        match cell {
            Some(SqlValue::Text(s)) => Ok(s.clone()),
            _ => Err(Self::refusal(cell, name, ColumnType::Text)),
        }
    }

    /// Column `name` as text that may be null.
    pub fn get_opt_text(&self, index_map: &ColumnIndexMap, name: &str) -> (r: Result<
        Option<String>,
        MappingError,
    >)
        ensures
            outcome(r) == opt_text_of(self@, index_map@, name@),
    {
        let cell = self.cell(index_map, name);
        match cell {
            Some(SqlValue::Text(s)) => Ok(Some(s.clone())),
            Some(SqlValue::Null) => Ok(None),
            _ => Err(Self::refusal(cell, name, ColumnType::Text)),
        }
    }

    /// Column `name` as bytes.
    pub fn get_bytes(&self, index_map: &ColumnIndexMap, name: &str) -> (r: Result<
        Vec<u8>,
        MappingError,
    >)
        ensures
            outcome(r) == bytes_of(self@, index_map@, name@),
    {
        let cell = self.cell(index_map, name);
        match cell {
            Some(SqlValue::Bytes(b)) => {
                broadcast use lemma_bytes_deep_view;

                Ok(copy_bytes(b))
            },
            _ => Err(Self::refusal(cell, name, ColumnType::Bytes)),
        }
    }

    /// Column `name` as bytes that may be null.
    pub fn get_opt_bytes(&self, index_map: &ColumnIndexMap, name: &str) -> (r: Result<
        Option<Vec<u8>>,
        MappingError,
    >)
        ensures
            outcome(r) == opt_bytes_of(self@, index_map@, name@),
    {
        let cell = self.cell(index_map, name);
        match cell {
            Some(SqlValue::Bytes(b)) => {
                broadcast use lemma_bytes_deep_view;

                Ok(Some(copy_bytes(b)))
            },
            Some(SqlValue::Null) => Ok(None),
            _ => Err(Self::refusal(cell, name, ColumnType::Bytes)),
        }
    }

    /// Column `name` as a truth value.
    pub fn get_bool(&self, index_map: &ColumnIndexMap, name: &str) -> (r: Result<
        bool,
        MappingError,
    >)
        ensures
            outcome(r) == bool_of(self@, index_map@, name@),
    {
        let cell = self.cell(index_map, name);
        match cell {
            Some(SqlValue::Bool(b)) => Ok(*b),
            Some(SqlValue::Int(n)) => Ok(*n != 0),
            Some(SqlValue::UInt(n)) => Ok(*n != 0),
            _ => Err(Self::refusal(cell, name, ColumnType::Bool)),
        }
    }

    /// Column `name` as an unsigned byte.
    pub fn get_u8(&self, index_map: &ColumnIndexMap, name: &str) -> (r: Result<u8, MappingError>)
        ensures
            outcome(r) == u8_of(self@, index_map@, name@),
    {
        let cell = self.cell(index_map, name);
        match cell {
            Some(SqlValue::UInt(n)) => if *n <= 255 {
                Ok(*n as u8)
            } else {
                Err(Self::failure(name, ColumnType::UnsignedByte, MappingProblem::OutOfRange))
            },
            Some(SqlValue::Int(n)) => if 0 <= *n && *n <= 255 {
                Ok(*n as u8)
            } else {
                Err(Self::failure(name, ColumnType::UnsignedByte, MappingProblem::OutOfRange))
            },
            _ => Err(Self::refusal(cell, name, ColumnType::UnsignedByte)),
        }
    }

    /// Column `name` as a decimal.
    pub fn get_decimal(&self, index_map: &ColumnIndexMap, name: &str) -> (r: Result<
        Decimal,
        MappingError,
    >)
        ensures
            outcome(r) == decimal_of(self@, index_map@, name@),
    {
        let cell = self.cell(index_map, name);
        match cell {
            Some(SqlValue::Decimal(d)) => Ok(*d),
            _ => Err(Self::refusal(cell, name, ColumnType::Decimal)),
        }
    }

    /// Column `name` as a decimal that may be null.
    pub fn get_opt_decimal(&self, index_map: &ColumnIndexMap, name: &str) -> (r: Result<
        Option<Decimal>,
        MappingError,
    >)
        ensures
            outcome(r) == opt_decimal_of(self@, index_map@, name@),
    {
        let cell = self.cell(index_map, name);
        match cell {
            Some(SqlValue::Decimal(d)) => Ok(Some(*d)),
            Some(SqlValue::Null) => Ok(None),
            _ => Err(Self::refusal(cell, name, ColumnType::Decimal)),
        }
    }

    /// Column `name` as a date.
    pub fn get_date(&self, index_map: &ColumnIndexMap, name: &str) -> (r: Result<
        NaiveDate,
        MappingError,
    >)
        ensures
            outcome(r) == date_of(self@, index_map@, name@),
    {
        let cell = self.cell(index_map, name);
        match cell {
            Some(SqlValue::Date(d)) => Ok(*d),
            _ => Err(Self::refusal(cell, name, ColumnType::Date)),
        }
    }

    /// Column `name` as an instant that may be null.
    pub fn get_opt_datetime(&self, index_map: &ColumnIndexMap, name: &str) -> (r: Result<
        Option<DateTimeUtc>,
        MappingError,
    >)
        ensures
            outcome(r) == opt_datetime_of(self@, index_map@, name@),
    {
        let cell = self.cell(index_map, name);
        match cell {
            Some(SqlValue::DateTime(t)) => Ok(Some(*t)),
            Some(SqlValue::Null) => Ok(None),
            _ => Err(Self::refusal(cell, name, ColumnType::DateTime)),
        }
    }
}

} // verus!

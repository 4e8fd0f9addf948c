//! Cursor state and row access.
//!
//! [`Rows`] is the state a cursor keeps beside the client's row stream: the
//! lazily cached column count, computed once from the stream's metadata and
//! memoized for the cursor's lifetime, and the exhaustion flag, set when the
//! stream yields no more rows.
//!
//! [`LuaRow`] is one fetched row: its stored values, its column names, and
//! the column count it was fetched under.  All column access is
//! bounds-checked with one shared policy: a negative index and an index at
//! or past the column count both fail with the precise [`BoundsError`].

use vstd::prelude::*;
use vstd::string::StringExecFns;
use crate::error::{BoundsError, ConversionError, RowAccessError};
use crate::ser::typed_views;
use crate::value::{to_dynamic_ref, to_dynamic_view, DynamicValue, DynamicValueView, TypedValue,
    TypedValueView};

verus! {

/// The shared bounds policy: a negative index is rejected as such, an index
/// at or past the column count is out of range, everything else is in range.
pub open spec fn check_index_view(idx: int, n_cols: int) -> Result<(), BoundsError> {
    if idx < 0 {
        Err(BoundsError::NegativeIndex)
    } else if idx >= n_cols {
        Err(BoundsError::IndexOutOfRange)
    } else {
        Ok(())
    }
}

/// Check a column index against a column count.
pub fn check_column_index(idx: i64, n_cols: i32) -> (r: Result<(), BoundsError>)
    ensures
        r == check_index_view(idx as int, n_cols as int),
        r is Ok <==> 0 <= idx < n_cols,
{
    if idx < 0 {
        Err(BoundsError::NegativeIndex)
    } else if idx >= n_cols as i64 {
        Err(BoundsError::IndexOutOfRange)
    } else {
        Ok(())
    }
}

/// The state a cursor keeps beside the underlying row stream.
pub struct Rows {
    /// The cached column count: absent until the first access, then fixed.
    n_cols: Option<i32>,
    /// Whether the stream has yielded its last row.
    exhausted: bool,
}

/// The mathematical view of a [`Rows`].
pub struct RowsView {
    pub n_cols: Option<i32>,
    pub exhausted: bool,
}

impl View for Rows {
    type V = RowsView;

    closed spec fn view(&self) -> RowsView {
        RowsView { n_cols: self.n_cols, exhausted: self.exhausted }
    }
}

impl Rows {
    /// A fresh cursor state: no cached count, not exhausted.
    pub fn new() -> (r: Rows)
        ensures
            r@.n_cols is None,
            !r@.exhausted,
    {
        Rows { n_cols: None, exhausted: false }
    }

    /// The cached column count, if the first access has happened.
    pub fn cached_column_count(&self) -> (r: Option<i32>)
        ensures
            r == self@.n_cols,
    {
        self.n_cols
    }

    /// The column count, with compute-once semantics: on the first call
    /// the count just computed from the stream's metadata is stored; every
    /// later call returns the stored count and ignores its argument.
    pub fn column_count(&mut self, computed: i32) -> (r: i32)
        ensures
            match old(self)@.n_cols {
                Some(c) => r == c && final(self)@ == old(self)@,
                None => r == computed && final(self)@.n_cols == Some(computed)
                    && final(self)@.exhausted == old(self)@.exhausted,
            },
    {
        match self.n_cols {
            Some(c) => c,
            None => {
                self.n_cols = Some(computed);
                computed
            },
        }
    }

    /// Record the outcome of advancing the stream: once it yields no row,
    /// the cursor is exhausted for good.  The cached count is untouched.
    pub fn record_next(&mut self, had_row: bool)
        ensures
            final(self)@.exhausted == (old(self)@.exhausted || !had_row),
            final(self)@.n_cols == old(self)@.n_cols,
    {
        if !had_row {
            self.exhausted = true;
        }
    }

    /// Whether the stream has yielded its last row.
    pub fn is_exhausted(&self) -> (r: bool)
        ensures
            r == self@.exhausted,
    {
        self.exhausted
    }

    /// Pass one fetch result through, recording exhaustion: a row is
    /// handed on unchanged, no row marks the cursor exhausted for good.
    pub fn note_next(&mut self, fetched: Option<LuaRow>) -> (r: Option<LuaRow>)
        ensures
            r == fetched,
            final(self)@.exhausted == (old(self)@.exhausted || fetched is None),
            final(self)@.n_cols == old(self)@.n_cols,
    {
        match &fetched {
            Some(_) => self.record_next(true),
            None => self.record_next(false),
        }
        fetched
    }
}

/// One fetched row: stored values, column names, and the column count it
/// was fetched under.
pub struct LuaRow {
    values: Vec<TypedValue>,
    names: Vec<Option<String>>,
    n_cols: i32,
}

/// The mathematical view of a [`LuaRow`].
pub struct LuaRowView {
    pub values: Seq<TypedValueView>,
    pub names: Seq<Option<Seq<char>>>,
    pub n_cols: int,
}

impl LuaRowView {
    /// A well-formed row has exactly one stored value and one name slot
    /// per column.
    pub open spec fn wf(self) -> bool {
        &&& self.values.len() == self.n_cols
        &&& self.names.len() == self.n_cols
        &&& self.n_cols >= 0
    }
}

impl View for LuaRow {
    type V = LuaRowView;

    closed spec fn view(&self) -> LuaRowView {
        LuaRowView {
            values: typed_views(self.values@),
            names: self.names@.map_values(
                |o: Option<String>|
                    match o {
                        Some(s) => Some(s@),
                        None => None,
                    },
            ),
            n_cols: self.n_cols as int,
        }
    }
}

/// The display name of a stored value's type.
pub open spec fn type_name_view(t: TypedValueView) -> Seq<char> {
    match t {
        TypedValueView::Null => "null"@,
        TypedValueView::Integer(_) => "integer"@,
        TypedValueView::Real(_) => "real"@,
        TypedValueView::Text(_) => "text"@,
        TypedValueView::Blob(_) => "blob"@,
    }
}

/// What `column_name` returns: the name at an in-range index; the bounds
/// error otherwise, a missing name counting as out of range.
pub open spec fn column_name_view(row: LuaRowView, idx: int) -> Result<Seq<char>, BoundsError> {
    match check_index_view(idx, row.n_cols) {
        Err(e) => Err(e),
        Ok(_) => match row.names[idx] {
            Some(nm) => Ok(nm),
            None => Err(BoundsError::IndexOutOfRange),
        },
    }
}

/// What `column_type` returns: the type name of the stored value at an
/// in-range index; the bounds error otherwise.
pub open spec fn column_type_view(row: LuaRowView, idx: int) -> Result<Seq<char>, BoundsError> {
    match check_index_view(idx, row.n_cols) {
        Err(e) => Err(e),
        Ok(_) => Ok(type_name_view(row.values[idx])),
    }
}

/// What `get` returns: the stored value at an in-range index converted
/// back to a dynamic value; the precise error otherwise.
pub open spec fn row_get_view(row: LuaRowView, idx: int) -> Result<
    DynamicValueView,
    RowAccessError,
> {
    match check_index_view(idx, row.n_cols) {
        Err(e) => Err(RowAccessError::Bounds(e)),
        Ok(_) => match to_dynamic_view(row.values[idx]) {
            Ok(d) => Ok(d),
            Err(e) => Err(RowAccessError::Conversion(e)),
        },
    }
}

impl LuaRow {
    /// Package one fetched row under its column count.
    pub fn new(values: Vec<TypedValue>, names: Vec<Option<String>>, n_cols: i32) -> (r: LuaRow)
        requires
            values@.len() == n_cols as int,
            names@.len() == n_cols as int,
        ensures
            r@.wf(),
            r@.n_cols == n_cols as int,
            r@.values == typed_views(values@),
            r@.names == names@.map_values(
                |o: Option<String>|
                    match o {
                        Some(s) => Some(s@),
                        None => None,
                    },
            ),
    {
        LuaRow { values, names, n_cols }
    }

    /// The column count this row was fetched under.
    pub fn column_count(&self) -> (r: i32)
        ensures
            r as int == self@.n_cols,
    {
        self.n_cols
    }

    /// The stored value at `idx`, converted back to a dynamic value.
    pub fn get(&self, idx: i64) -> (r: Result<DynamicValue, RowAccessError>)
        requires
            self@.wf(),
        ensures
            r matches Ok(d) ==> row_get_view(self@, idx as int) == Ok::<
                DynamicValueView,
                RowAccessError,
            >(d@),
            r matches Err(e) ==> row_get_view(self@, idx as int) == Err::<
                DynamicValueView,
                RowAccessError,
            >(e),
    {
        match check_column_index(idx, self.n_cols) {
            Err(e) => Err(RowAccessError::Bounds(e)),
            Ok(_) => {
                let v = &self.values[idx as usize];
                match to_dynamic_ref(v) {
                    Ok(d) => Ok(d),
                    Err(e) => Err(RowAccessError::Conversion(e)),
                }
            },
        }
    }

    /// The name of column `idx`.
    pub fn column_name(&self, idx: i64) -> (r: Result<String, BoundsError>)
        requires
            self@.wf(),
        ensures
            r matches Ok(s) ==> column_name_view(self@, idx as int) == Ok::<
                Seq<char>,
                BoundsError,
            >(s@),
            r matches Err(e) ==> column_name_view(self@, idx as int) == Err::<
                Seq<char>,
                BoundsError,
            >(e),
    {
        match check_column_index(idx, self.n_cols) {
            Err(e) => Err(e),
            Ok(_) => match &self.names[idx as usize] {
                Some(s) => Ok(s.clone()),
                None => Err(BoundsError::IndexOutOfRange),
            },
        }
    }

    /// The type name of the stored value in column `idx`.
    pub fn column_type(&self, idx: i64) -> (r: Result<String, BoundsError>)
        requires
            self@.wf(),
        ensures
            r matches Ok(s) ==> column_type_view(self@, idx as int) == Ok::<
                Seq<char>,
                BoundsError,
            >(s@),
            r matches Err(e) ==> column_type_view(self@, idx as int) == Err::<
                Seq<char>,
                BoundsError,
            >(e),
    {
        match check_column_index(idx, self.n_cols) {
            Err(e) => Err(e),
            Ok(_) => {
                let v = &self.values[idx as usize];
                match v {
                    TypedValue::Null => Ok(String::from_str("null")),
                    TypedValue::Integer(_) => Ok(String::from_str("integer")),
                    TypedValue::Real(_) => Ok(String::from_str("real")),
                    TypedValue::Text(_) => Ok(String::from_str("text")),
                    TypedValue::Blob(_) => Ok(String::from_str("blob")),
                }
            },
        }
    }
}

/// Law: column access is bounds-correct.  On a well-formed row whose
/// columns are all named, `column_name` succeeds exactly on the indexes
/// from zero up to the column count, and fails with the bounds error
/// otherwise.
pub proof fn lemma_column_name_bounds(row: LuaRowView, idx: int)
    requires
        row.wf(),
        forall|j: int| 0 <= j < row.n_cols ==> (#[trigger] row.names[j]) is Some,
    ensures
        column_name_view(row, idx) is Ok <==> 0 <= idx < row.n_cols,
        idx < 0 ==> column_name_view(row, idx) == Err::<Seq<char>, BoundsError>(
            BoundsError::NegativeIndex,
        ),
        idx >= row.n_cols ==> column_name_view(row, idx) == Err::<Seq<char>, BoundsError>(
            BoundsError::IndexOutOfRange,
        ),
{
}

} // verus!

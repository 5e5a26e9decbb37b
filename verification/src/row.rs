//! The row materializer.
//!
//! A row is an ordered list of scalars with a parallel ordered list of
//! column names. Lookup is by index or by name; name resolution is
//! first-match over the column-name list, so a duplicated column name
//! resolves to its first occurrence. Rows are read-only after
//! construction.

use vstd::prelude::*;

use crate::text::strings_view;
use crate::value::{scalars_view, Scalar, Value, TursoValue};

verus! {

/// One materialized result row: scalars and their column names.
pub struct TursoRow {
    values: Vec<Value>,
    field_vec: Vec<String>,
}

impl TursoRow {
    /// The scalars of the row, in column order.
    pub closed spec fn values_view(&self) -> Seq<Scalar> {
        scalars_view(self.values@)
    }

    /// The column names of the row, in column order.
    pub closed spec fn names_view(&self) -> Seq<Seq<char>> {
        strings_view(self.field_vec@)
    }

    /// Builds a row from the raw scalars and the column names resolved for
    /// them, in matching order.
    pub fn from_turso_values(values: Vec<Value>, field_vec: Vec<String>) -> (r: Self)
        ensures
            r.values_view() == scalars_view(values@),
            r.names_view() == strings_view(field_vec@),
    {
        Self { values, field_vec }
    }

    /// The number of fields, which is the number of resolved column names.
    pub fn field_count(&self) -> (n: usize)
        ensures
            n == self.names_view().len(),
    {
        self.field_vec.len()
    }

    /// Resolves a positional index: in range or nothing.
    pub fn idx(&self, idx: usize) -> (r: Option<usize>)
        ensures
            match r {
                Some(j) => j == idx && idx < self.names_view().len(),
                None => idx >= self.names_view().len(),
            },
    {
        if idx < self.field_vec.len() {
            Some(idx)
        } else {
            None
        }
    }

    /// Resolves a column name to the index of its first occurrence.
    pub fn idx_by_name(&self, field: &str) -> (r: Option<usize>)
        ensures
            match r {
                Some(j) => {
                    &&& j < self.names_view().len()
                    &&& self.names_view()[j as int] == field@
                    &&& forall|k: int| 0 <= k < j ==> self.names_view()[k] != field@
                },
                None => forall|k: int|
                    0 <= k < self.names_view().len() ==> self.names_view()[k] != field@,
            },
    {
        let mut i: usize = 0;
        let needle = field.to_owned();
        while i < self.field_vec.len()
            invariant
                i <= self.field_vec@.len(),
                needle@ == field@,
                forall|k: int| 0 <= k < i ==> self.names_view()[k] != field@,
            decreases self.field_vec@.len() - i,
        {
            if self.field_vec[i].eq(&needle) {
                return Some(i);
            }
            i = i + 1;
        }
        None
    }

    /// The field at the given position: its resolved name and an owned
    /// copy of its scalar, or nothing when the position is out of range.
    pub fn get(&self, idx: usize) -> (r: Option<TursoField>)
        ensures
            match r {
                Some(f) => {
                    &&& idx < self.names_view().len()
                    &&& f.name_view() == self.names_view()[idx as int]
                    &&& f.raw_view() == (if idx < self.values_view().len() {
                        Some(self.values_view()[idx as int])
                    } else {
                        Option::<Scalar>::None
                    })
                },
                None => idx >= self.names_view().len(),
            },
    {
        let index = match self.idx(idx) {
            Some(index) => index,
            None => {
                return None;
            },
        };
        let name = self.field_vec[index].clone();
        let raw = if index < self.values.len() {
            Some(self.values[index].duplicate())
        } else {
            None
        };
        Some(TursoField { name, raw })
    }

    /// The field for the given column name, resolved first-match, or
    /// nothing when no column carries the name.
    pub fn get_named(&self, field: &str) -> (r: Option<TursoField>)
        ensures
            match r {
                Some(f) => exists|j: int|
                    {
                        &&& 0 <= j < self.names_view().len()
                        &&& #[trigger] self.names_view()[j] == field@
                        &&& forall|k: int| 0 <= k < j ==> self.names_view()[k] != field@
                        &&& f.name_view() == field@
                        &&& f.raw_view() == (if j < self.values_view().len() {
                            Some(self.values_view()[j])
                        } else {
                            Option::<Scalar>::None
                        })
                    },
                None => forall|k: int|
                    0 <= k < self.names_view().len() ==> self.names_view()[k] != field@,
            },
    {
        let index = match self.idx_by_name(field) {
            Some(index) => index,
            None => {
                return None;
            },
        };
        self.get(index)
    }
}

/// One field handle: the resolved column name and an owned copy of the
/// stored scalar, if the position carried one.
pub struct TursoField {
    name: String,
    raw: Option<Value>,
}

impl TursoField {
    /// The resolved column name.
    pub closed spec fn name_view(&self) -> Seq<char> {
        self.name@
    }

    /// The stored scalar, when the position carried one.
    pub closed spec fn raw_view(&self) -> Option<Scalar> {
        match self.raw {
            Some(v) => Some(v@),
            None => None,
        }
    }

    /// The column name this field was resolved under.
    pub fn field_name(&self) -> (r: &str)
        ensures
            r@ == self.name_view(),
    {
        self.name.as_str()
    }

    /// The decoded value: nothing for a stored null or a missing position,
    /// otherwise the scalar.
    pub fn value(&self) -> (r: Option<TursoValue>)
        ensures
            match self.raw_view() {
                None => r is None,
                Some(s) => if s is Null {
                    r is None
                } else {
                    r matches Some(v) && v@ == s
                },
            },
    {
        match &self.raw {
            None => None,
            Some(v) => {
                if matches!(v, Value::Null) {
                    None
                } else {
                    Some(TursoValue::from_turso_value(v.duplicate()))
                }
            },
        }
    }
}

} // verus!

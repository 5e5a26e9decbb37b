//! The execution adapter's decision core.
//!
//! The engine itself is asynchronous and lives outside this crate; what is
//! here is everything the adapter decides and computes around it: how a
//! statement is prepared and bound, how the mutation path's outcome is
//! classified — including the one misuse condition that is transparently
//! retried through the row-returning path — and how raw results are
//! shaped into rows with resolved column names.

use vstd::prelude::*;
use vstd::string::StringExecFns;

use crate::text::{contains_seq, decimal_chars, push_decimal, str_contains};
use crate::row::TursoRow;
use crate::value::{Scalar, Value};

verus! {

/// A prepared statement: the rendered SQL text and the values bound to
/// its placeholders, in placeholder order.
pub struct TursoPreparedStatement {
    pub sql: String,
    pub binds: Vec<Value>,
}

/// Prepares a statement: the SQL text with no values bound yet.
pub fn prepare(query: &str) -> (r: TursoPreparedStatement)
    ensures
        r.sql@ == query@,
        r.binds@.len() == 0,
{
    TursoPreparedStatement { sql: query.to_owned(), binds: Vec::new() }
}

impl TursoPreparedStatement {
    /// Binds the given values, replacing any previous binding.
    pub fn bind(&mut self, values: Vec<Value>)
        ensures
            final(self).sql == old(self).sql,
            final(self).binds == values,
    {
        self.binds = values;
    }
}

/// The views of one raw result row: each column name with its scalar.
pub open spec fn pairs_view(row: Seq<(String, Value)>) -> Seq<(Seq<char>, Scalar)> {
    row.map_values(|p: (String, Value)| (p.0@, p.1@))
}

/// The views of a raw result set.
pub open spec fn results_view(results: Seq<Vec<(String, Value)>>) -> Seq<
    Seq<(Seq<char>, Scalar)>,
> {
    results.map_values(|row: Vec<(String, Value)>| pairs_view(row@))
}

/// What one engine round trip produced: the raw rows of a query, or the
/// affected-row count of a mutation, with any engine error message.
pub struct TursoResult {
    pub results: Vec<Vec<(String, Value)>>,
    pub error: Option<String>,
    pub changes: usize,
}

/// The affected-row count of a completed mutation.
#[derive(Debug, Clone)]
pub struct TursoMeta {
    pub changes: usize,
}

impl TursoResult {
    /// The raw rows, when the round trip produced any.
    pub fn results(&self) -> (r: Option<Vec<Vec<(String, Value)>>>)
        ensures
            self.results@.len() == 0 ==> r is None,
            self.results@.len() > 0 ==> (r matches Some(v) && results_view(v@) == results_view(
                self.results@,
            )),
    {
        if self.results.len() == 0 {
            return None;
        }
        let mut copy: Vec<Vec<(String, Value)>> = Vec::new();
        let mut i: usize = 0;
        while i < self.results.len()
            invariant
                i <= self.results@.len(),
                copy@.len() == i,
                forall|j: int|
                    0 <= j < i ==> #[trigger] pairs_view(copy@[j]@) == pairs_view(
                        self.results@[j]@,
                    ),
            decreases self.results@.len() - i,
        {
            copy.push(duplicate_pairs(&self.results[i]));
            i = i + 1;
        }
        proof {
            assert(results_view(copy@) =~= results_view(self.results@));
        }
        Some(copy)
    }

    /// The engine's error message, when the round trip failed.
    pub fn error(&self) -> (r: Option<String>)
        ensures
            match self.error {
                Some(m) => r matches Some(c) && c@ == m@,
                None => r is None,
            },
    {
        match &self.error {
            Some(m) => Some(m.clone()),
            None => None,
        }
    }

    /// The mutation metadata.
    pub fn meta(&self) -> (r: TursoMeta)
        ensures
            r.changes == self.changes,
    {
        TursoMeta { changes: self.changes }
    }
}

/// An owned copy of one raw row, pairwise equal under the views.
fn duplicate_pairs(row: &Vec<(String, Value)>) -> (r: Vec<(String, Value)>)
    ensures
        pairs_view(r@) == pairs_view(row@),
{
    let mut copy: Vec<(String, Value)> = Vec::new();
    let mut i: usize = 0;
    while i < row.len()
        invariant
            i <= row@.len(),
            copy@.len() == i,
            forall|j: int|
                0 <= j < i ==> copy@[j].0@ == row@[j].0@ && copy@[j].1@ == row@[j].1@,
        decreases row@.len() - i,
    {
        let name = row[i].0.clone();
        let value = row[i].1.duplicate();
        copy.push((name, value));
        i = i + 1;
    }
    proof {
        assert(pairs_view(copy@) =~= pairs_view(row@));
    }
    copy
}

/// The two engine failure conditions the adapter tells apart: a misuse
/// report, whose message may mark the one recoverable case, and every
/// other engine error.
pub enum TursoEngineError {
    Misuse(String),
    Other(String),
}

/// The message carried by an engine error.
pub open spec fn engine_error_message(e: TursoEngineError) -> Seq<char> {
    match e {
        TursoEngineError::Misuse(m) => m@,
        TursoEngineError::Other(m) => m@,
    }
}

/// The one recoverable condition: a misuse report whose message says an
/// unexpected row was produced. Statements issued through the mutation
/// path can hit it when they return rows after all.
pub open spec fn misuse_recovery_trigger(e: TursoEngineError) -> bool {
    e matches TursoEngineError::Misuse(m) && contains_seq(m@, "unexpected row"@)
}

/// What the adapter does with the mutation path's outcome.
pub enum ExecuteDisposition {
    /// The mutation completed; hand back its affected-row count.
    Done(usize),
    /// The engine reported the unexpected-row misuse: reissue the same
    /// statement through the row-returning path and hand back its rows.
    RetryAsQuery,
    /// Any other engine failure: surface it with its message preserved.
    Fail(String),
}

/// The classification of a mutation outcome.
pub open spec fn disposition_spec(outcome: Result<usize, TursoEngineError>) -> ExecuteDisposition {
    match outcome {
        Ok(n) => ExecuteDisposition::Done(n),
        Err(e) => if misuse_recovery_trigger(e) {
            ExecuteDisposition::RetryAsQuery
        } else {
            match e {
                TursoEngineError::Misuse(m) => ExecuteDisposition::Fail(m),
                TursoEngineError::Other(m) => ExecuteDisposition::Fail(m),
            }
        },
    }
}

/// Classifies the outcome of the mutation path: done with a count, retry
/// through the row-returning path, or fail with the message preserved.
pub fn execute_disposition(outcome: Result<usize, TursoEngineError>) -> (d: ExecuteDisposition)
    ensures
        d == disposition_spec(outcome),
{
    match outcome {
        Ok(n) => ExecuteDisposition::Done(n),
        Err(TursoEngineError::Misuse(m)) => {
            if str_contains(m.as_str(), "unexpected row") {
                ExecuteDisposition::RetryAsQuery
            } else {
                ExecuteDisposition::Fail(m)
            }
        },
        Err(TursoEngineError::Other(m)) => ExecuteDisposition::Fail(m),
    }
}

/// Misuse recovery never surfaces: whenever the engine reports the
/// unexpected-row misuse for a statement issued through the mutation
/// path, the adapter's classification is the retry through the
/// row-returning path — never a failure, whatever the rest of the message
/// holds. Every other failure keeps its message.
pub proof fn lemma_misuse_recovery(outcome: Result<usize, TursoEngineError>)
    ensures
        (outcome matches Err(e) && misuse_recovery_trigger(e)) <==> disposition_spec(outcome)
            is RetryAsQuery,
        (outcome matches Err(e) && !misuse_recovery_trigger(e)) ==> (disposition_spec(outcome)
            matches ExecuteDisposition::Fail(m) && m@ == engine_error_message(outcome->Err_0)),
        outcome matches Ok(n) ==> disposition_spec(outcome) == ExecuteDisposition::Done(n),
{
}

/// The result a completed mutation hands back: no rows, no error, the
/// affected-row count.
pub fn execute_success_result(changes: usize) -> (r: TursoResult)
    ensures
        r.results@.len() == 0,
        r.error is None,
        r.changes == changes,
{
    TursoResult { results: Vec::new(), error: None, changes }
}

/// The column name for a result position: the statement's column
/// metadata when it covers the position, else the synthetic name
/// `col_<index>`.
pub fn column_name_or_default(columns: &Vec<String>, idx: usize) -> (r: String)
    ensures
        idx < columns@.len() ==> r@ == columns@[idx as int]@,
        idx >= columns@.len() ==> r@ == "col_"@ + decimal_chars(idx as nat),
{
    if idx < columns.len() {
        columns[idx].clone()
    } else {
        let mut name = String::new();
        name.append("col_");
        push_decimal(&mut name, idx);
        proof {
            assert(Seq::<char>::empty() + "col_"@ =~= "col_"@);
        }
        name
    }
}

/// The column names of a result set: the first row's names, or nothing
/// when there are no rows or the first row is empty.
pub fn field_keys(results: &Vec<Vec<(String, Value)>>) -> (r: Vec<String>)
    ensures
        (results@.len() > 0 && results@[0]@.len() > 0) ==> {
            &&& r@.len() == results@[0]@.len()
            &&& forall|i: int| 0 <= i < r@.len() ==> r@[i]@ == results@[0]@[i].0@
        },
        !(results@.len() > 0 && results@[0]@.len() > 0) ==> r@.len() == 0,
{
    if results.len() == 0 {
        return Vec::new();
    }
    let first = &results[0];
    if first.len() == 0 {
        return Vec::new();
    }
    let mut keys: Vec<String> = Vec::new();
    let mut i: usize = 0;
    while i < first.len()
        invariant
            i <= first@.len(),
            keys@.len() == i,
            first@ == results@[0]@,
            forall|j: int| 0 <= j < i ==> keys@[j]@ == first@[j].0@,
        decreases first@.len() - i,
    {
        keys.push(first[i].0.clone());
        i = i + 1;
    }
    keys
}

/// Materializes the raw rows: each row's scalars in column order, every
/// row carrying the resolved column names of the first row.
pub fn materialize_rows(results: &Vec<Vec<(String, Value)>>, keys: &Vec<String>) -> (r: Vec<
    TursoRow,
>)
    ensures
        r@.len() == results@.len(),
        forall|i: int|
            0 <= i < r@.len() ==> {
                &&& (#[trigger] r@[i]).names_view() == crate::text::strings_view(keys@)
                &&& r@[i].values_view().len() == results@[i]@.len()
                &&& forall|j: int|
                    0 <= j < results@[i]@.len() ==> r@[i].values_view()[j] == results@[i]@[j].1@
            },
{
    let mut rows: Vec<TursoRow> = Vec::new();
    let mut i: usize = 0;
    while i < results.len()
        invariant
            i <= results@.len(),
            rows@.len() == i,
            forall|k: int|
                0 <= k < i ==> {
                    &&& (#[trigger] rows@[k]).names_view() == crate::text::strings_view(keys@)
                    &&& rows@[k].values_view().len() == results@[k]@.len()
                    &&& forall|j: int|
                        0 <= j < results@[k]@.len() ==> rows@[k].values_view()[j]
                            == results@[k]@[j].1@
                },
        decreases results@.len() - i,
    {
        let raw = &results[i];
        let mut values: Vec<Value> = Vec::new();
        let mut j: usize = 0;
        while j < raw.len()
            invariant
                j <= raw@.len(),
                values@.len() == j,
                forall|k: int| 0 <= k < j ==> values@[k]@ == raw@[k].1@,
            decreases raw@.len() - j,
        {
            values.push(raw[j].1.duplicate());
            j = j + 1;
        }
        let names = duplicate_strings(keys);
        let row = TursoRow::from_turso_values(values, names);
        rows.push(row);
        i = i + 1;
    }
    rows
}

/// An owned copy of a name list, element views preserved.
fn duplicate_strings(names: &Vec<String>) -> (r: Vec<String>)
    ensures
        crate::text::strings_view(r@) == crate::text::strings_view(names@),
{
    let mut copy: Vec<String> = Vec::new();
    let mut i: usize = 0;
    while i < names.len()
        invariant
            i <= names@.len(),
            copy@.len() == i,
            forall|j: int| 0 <= j < i ==> copy@[j]@ == names@[j]@,
        decreases names@.len() - i,
    {
        copy.push(names[i].clone());
        i = i + 1;
    }
    proof {
        assert(crate::text::strings_view(copy@) =~= crate::text::strings_view(names@));
    }
    copy
}

} // verus!

//! The bind-value collector.
//!
//! While the renderer emits SQL text, the collector walks the same query in
//! lockstep and accumulates one `(value, declared type)` pair per emitted
//! placeholder. The order of the list is the order of the placeholders:
//! that alignment is the core correctness invariant of the whole layer.

use vstd::prelude::*;

use crate::backend::TursoType;
use crate::TursoError;
use crate::value::{Scalar, Value, TursoValue};

verus! {

/// What a parameter's self-serialization reported about its nullness.
#[derive(Debug, Clone, Copy, PartialEq, Eq, Structural)]
pub enum IsNull {
    Yes,
    No,
}

/// The view of a collected bind list: each entry's scalar view paired with
/// its declared type.
pub open spec fn bind_views(binds: Seq<(TursoValue, TursoType)>) -> Seq<(Scalar, TursoType)> {
    binds.map_values(|b: (TursoValue, TursoType)| (b.0@, b.1))
}

/// Collects bind parameters in placeholder order.
pub struct TursoBindCollector {
    /// The collected `(value, declared type)` pairs, placeholder order.
    pub binds: Vec<(TursoValue, TursoType)>,
}

impl TursoBindCollector {
    /// An empty collector.
    pub fn new() -> (r: Self)
        ensures
            r.binds@.len() == 0,
    {
        TursoBindCollector { binds: Vec::new() }
    }

    /// Appends the outcome of one parameter's self-serialization.
    ///
    /// The serialization ran against a scratch value that started as null;
    /// `serialized` carries the scalar it produced together with its
    /// nullness report, or the message of a serialization failure. A
    /// parameter that reports null is collected as the null scalar whatever
    /// its declared type and whatever the scratch value held; a failure
    /// leaves the collector unchanged and aborts the statement.
    pub fn push_bound_value(
        &mut self,
        serialized: Result<(TursoValue, IsNull), String>,
        metadata: TursoType,
    ) -> (r: Result<(), TursoError>)
        ensures
            match serialized {
                Ok((v, is_null)) => {
                    &&& r is Ok
                    &&& final(self).binds@.len() == old(self).binds@.len() + 1
                    &&& forall|i: int|
                        0 <= i < old(self).binds@.len() ==> final(self).binds@[i] == old(
                            self,
                        ).binds@[i]
                    &&& final(self).binds@.last().1 == metadata
                    &&& final(self).binds@.last().0@ == (if is_null is No {
                        v@
                    } else {
                        Scalar::Null
                    })
                },
                Err(message) => {
                    &&& r matches Err(e) && e.message@ == message@
                    &&& final(self).binds@ == old(self).binds@
                },
            },
    {
        match serialized {
            Ok((value, is_null)) => {
                let bind = if matches!(is_null, IsNull::No) {
                    value
                } else {
                    TursoValue::from_turso_value(Value::Null)
                };
                self.binds.push((bind, metadata));
                Ok(())
            },
            Err(message) => Err(TursoError { message }),
        }
    }

    /// The collected scalars in placeholder order, stripped of their
    /// declared types: the flat list handed to the engine.
    pub fn bind_values(&self) -> (r: Vec<Value>)
        ensures
            r@.len() == self.binds@.len(),
            forall|i: int| 0 <= i < r@.len() ==> r@[i]@ == self.binds@[i].0@,
    {
        let mut values: Vec<Value> = Vec::new();
        let mut i: usize = 0;
        while i < self.binds.len()
            invariant
                i <= self.binds@.len(),
                values@.len() == i,
                forall|j: int| 0 <= j < i ==> values@[j]@ == self.binds@[j].0@,
            decreases self.binds@.len() - i,
        {
            values.push(self.binds[i].0.to_turso_value());
            i = i + 1;
        }
        values
    }
}

impl Default for TursoBindCollector {
    fn default() -> (r: Self)
        ensures
            r.binds@.len() == 0,
    {
        TursoBindCollector::new()
    }
}

} // verus!

//! Limit/offset clause rendering.
//!
//! The engine requires a LIMIT token in front of any OFFSET, and treats a
//! negative limit as "unbounded". The rendering rule is therefore
//! exhaustive over the four shapes: nothing, limit only, ` LIMIT -1 `
//! followed by the offset, or limit then offset.

use vstd::prelude::*;

use crate::backend::TursoType;
use crate::bind_collector::{bind_views, IsNull, TursoBindCollector};
use crate::query_builder::{
    ident_state_after, lemma_placeholders_concat, lemma_placeholders_plain, placeholder_count,
    placeholders_from, TursoQueryBuilder,
};
use crate::value::{Scalar, Value, TursoValue};

verus! {

/// A limit/offset clause with both parts already reduced to optional bound
/// values, as the boxed query builder hands them over.
pub struct LimitOffsetClause {
    pub limit: Option<i64>,
    pub offset: Option<i64>,
}

/// The SQL text a limit/offset clause appends: nothing, a limit
/// placeholder, ` LIMIT -1 ` before an offset placeholder, or both
/// placeholders in limit-then-offset order.
pub open spec fn limit_offset_sql(limit: Option<i64>, offset: Option<i64>) -> Seq<char> {
    match (limit, offset) {
        (Option::None, Option::None) => Seq::empty(),
        (Option::Some(_), Option::None) => " LIMIT "@ + seq!['?'],
        (Option::None, Option::Some(_)) => " LIMIT -1 "@ + " OFFSET "@ + seq!['?'],
        (Option::Some(_), Option::Some(_)) => " LIMIT "@ + seq!['?'] + " OFFSET "@ + seq!['?'],
    }
}

/// The bind entries a limit/offset clause appends, by scalar view: one
/// engine integer per rendered placeholder, in rendering order.
pub open spec fn limit_offset_bind_views(limit: Option<i64>, offset: Option<i64>) -> Seq<
    (Scalar, TursoType),
> {
    match (limit, offset) {
        (Option::None, Option::None) => Seq::empty(),
        (Option::Some(l), Option::None) => seq![(Scalar::Integer(l), TursoType::Integer)],
        (Option::None, Option::Some(o)) => seq![(Scalar::Integer(o), TursoType::Integer)],
        (Option::Some(l), Option::Some(o)) => seq![
            (Scalar::Integer(l), TursoType::Integer),
            (Scalar::Integer(o), TursoType::Integer),
        ],
    }
}

impl LimitOffsetClause {
    /// Renders the clause and collects its bind values in lockstep: the
    /// text grows by exactly the clause's fragment and the collector by
    /// exactly the clause's entries, in placeholder order.
    pub fn walk_ast(&self, out: &mut TursoQueryBuilder, binds: &mut TursoBindCollector)
        ensures
            final(out)@ == old(out)@ + limit_offset_sql(self.limit, self.offset),
            bind_views(final(binds).binds@) == bind_views(old(binds).binds@)
                + limit_offset_bind_views(self.limit, self.offset),
    {
        match (self.limit, self.offset) {
            (Option::None, Option::None) => {
                proof {
                    assert(old(out)@ + limit_offset_sql(self.limit, self.offset) =~= old(out)@);
                    assert(bind_views(old(binds).binds@) + limit_offset_bind_views(
                        self.limit,
                        self.offset,
                    ) =~= bind_views(old(binds).binds@));
                }
            },
            (Option::Some(l), Option::None) => {
                out.push_sql(" LIMIT ");
                out.push_bind_param();
                let _ = binds.push_bound_value(
                    Ok((TursoValue::from_turso_value(Value::Integer(l)), IsNull::No)),
                    TursoType::Integer,
                );
                proof {
                    assert(final(out)@ =~= old(out)@ + (" LIMIT "@ + seq!['?']));
                    assert(bind_views(final(binds).binds@) =~= bind_views(old(binds).binds@)
                        + limit_offset_bind_views(self.limit, self.offset));
                }
            },
            (Option::None, Option::Some(o)) => {
                out.push_sql(" LIMIT -1 ");
                out.push_sql(" OFFSET ");
                out.push_bind_param();
                let _ = binds.push_bound_value(
                    Ok((TursoValue::from_turso_value(Value::Integer(o)), IsNull::No)),
                    TursoType::Integer,
                );
                proof {
                    assert(final(out)@ =~= old(out)@ + (" LIMIT -1 "@ + " OFFSET "@ + seq!['?']));
                    assert(bind_views(final(binds).binds@) =~= bind_views(old(binds).binds@)
                        + limit_offset_bind_views(self.limit, self.offset));
                }
            },
            (Option::Some(l), Option::Some(o)) => {
                out.push_sql(" LIMIT ");
                out.push_bind_param();
                let _ = binds.push_bound_value(
                    Ok((TursoValue::from_turso_value(Value::Integer(l)), IsNull::No)),
                    TursoType::Integer,
                );
                out.push_sql(" OFFSET ");
                out.push_bind_param();
                let _ = binds.push_bound_value(
                    Ok((TursoValue::from_turso_value(Value::Integer(o)), IsNull::No)),
                    TursoType::Integer,
                );
                proof {
                    assert(final(out)@ =~= old(out)@ + (" LIMIT "@ + seq!['?'] + " OFFSET "@
                        + seq!['?']));
                    assert(bind_views(final(binds).binds@) =~= bind_views(old(binds).binds@)
                        + limit_offset_bind_views(self.limit, self.offset));
                }
            },
        }
    }
}

/// Bind-order alignment for every limit/offset clause shape: the rendered
/// fragment holds exactly as many placeholders as the clause appends bind
/// entries, and it leaves the quoting scan outside identifiers.
pub proof fn lemma_limit_offset_alignment(limit: Option<i64>, offset: Option<i64>)
    ensures
        placeholder_count(limit_offset_sql(limit, offset)) == limit_offset_bind_views(
            limit,
            offset,
        ).len(),
        ident_state_after(limit_offset_sql(limit, offset), false) == false,
{
    reveal_strlit(" LIMIT ");
    reveal_strlit(" LIMIT -1 ");
    reveal_strlit(" OFFSET ");
    reveal_with_fuel(placeholders_from, 2);
    reveal_with_fuel(ident_state_after, 2);
    assert(seq!['?'].skip(1) =~= Seq::<char>::empty());
    match (limit, offset) {
        (Option::None, Option::None) => {
        },
        (Option::Some(_), Option::None) => {
            lemma_placeholders_plain(" LIMIT "@, false);
            lemma_placeholders_concat(" LIMIT "@, seq!['?'], false);
        },
        (Option::None, Option::Some(_)) => {
            lemma_placeholders_plain(" LIMIT -1 "@, false);
            lemma_placeholders_plain(" OFFSET "@, false);
            lemma_placeholders_concat(" LIMIT -1 "@, " OFFSET "@, false);
            lemma_placeholders_concat(" LIMIT -1 "@ + " OFFSET "@, seq!['?'], false);
        },
        (Option::Some(_), Option::Some(_)) => {
            lemma_placeholders_plain(" LIMIT "@, false);
            lemma_placeholders_plain(" OFFSET "@, false);
            lemma_placeholders_concat(" LIMIT "@, seq!['?'], false);
            lemma_placeholders_concat(" LIMIT "@ + seq!['?'], " OFFSET "@, false);
            lemma_placeholders_concat(" LIMIT "@ + seq!['?'] + " OFFSET "@, seq!['?'], false);
        },
    }
}

} // verus!

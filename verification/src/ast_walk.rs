//! The query walk.
//!
//! The query framework walks a statement's abstract syntax once, emitting
//! into the renderer and the bind collector in lockstep: raw SQL text,
//! quoted identifiers, and bound parameters. This module models that walk
//! as the sequence of its emissions and proves the bind-order invariant
//! over it: a query with `k` placeholders collects exactly `k` bind
//! entries, in emission order. Because the statement holds for every
//! prefix of a walk as well, the entry collected at a bind step sits at
//! the same position as the placeholder that step emits.

use vstd::prelude::*;

use crate::backend::TursoType;
use crate::bind_collector::{bind_views, IsNull, TursoBindCollector};
use crate::query_builder::{
    ident_state_after, lemma_placeholders_concat, lemma_placeholders_plain,
    lemma_quoted_ident_no_placeholders, placeholder_count, placeholders_from, quoted_ident,
    TursoQueryBuilder,
};
use crate::value::{Scalar, TursoValue};

verus! {

/// One emission of a query walk.
pub enum AstStep {
    /// A raw piece of SQL text: keywords, punctuation, whitespace.
    Sql(String),
    /// An identifier, to be quoted and escaped.
    Identifier(String),
    /// A bound parameter: one placeholder in the text, one entry in the
    /// collector.
    Bind(TursoValue, TursoType),
}

/// The text one step emits.
pub open spec fn step_sql(step: AstStep) -> Seq<char> {
    match step {
        AstStep::Sql(s) => s@,
        AstStep::Identifier(name) => quoted_ident(name@),
        AstStep::Bind(_, _) => seq!['?'],
    }
}

/// The bind entries one step collects.
pub open spec fn step_binds(step: AstStep) -> Seq<(Scalar, TursoType)> {
    match step {
        AstStep::Bind(v, t) => seq![(v@, t)],
        _ => Seq::empty(),
    }
}

/// The text a whole walk emits, in emission order.
pub open spec fn walk_sql(steps: Seq<AstStep>) -> Seq<char>
    decreases steps.len(),
{
    if steps.len() == 0 {
        Seq::empty()
    } else {
        step_sql(steps[0]) + walk_sql(steps.skip(1))
    }
}

/// The bind entries a whole walk collects, in emission order.
pub open spec fn walk_binds(steps: Seq<AstStep>) -> Seq<(Scalar, TursoType)>
    decreases steps.len(),
{
    if steps.len() == 0 {
        Seq::empty()
    } else {
        step_binds(steps[0]) + walk_binds(steps.skip(1))
    }
}

/// Whether a step's raw SQL text, if it is one, is free of the
/// placeholder mark and the quote delimiter.
pub open spec fn plain_sql_step(step: AstStep) -> bool {
    match step {
        AstStep::Sql(s) => forall|j: int|
            0 <= j < s@.len() ==> (#[trigger] s@[j]) != '?' && s@[j] != '`',
        _ => true,
    }
}

/// Whether every raw SQL fragment of the walk is free of the placeholder
/// mark and the quote delimiter; identifiers and binds are unconstrained.
pub open spec fn plain_sql_steps(steps: Seq<AstStep>) -> bool {
    forall|i: int| 0 <= i < steps.len() ==> plain_sql_step(#[trigger] steps[i])
}

/// Performs a walk: drives the renderer and the collector in lockstep,
/// appending exactly the walk's text and exactly its bind entries.
pub fn walk_query(steps: &Vec<AstStep>, out: &mut TursoQueryBuilder, binds: &mut TursoBindCollector)
    ensures
        final(out)@ == old(out)@ + walk_sql(steps@),
        bind_views(final(binds).binds@) == bind_views(old(binds).binds@) + walk_binds(steps@),
{
    let ghost sql0 = old(out)@;
    let ghost binds0 = bind_views(old(binds).binds@);
    let mut i: usize = 0;
    proof {
        assert(steps@.skip(0) =~= steps@);
    }
    while i < steps.len()
        invariant
            i <= steps@.len(),
            sql0 + walk_sql(steps@) == out@ + walk_sql(steps@.skip(i as int)),
            binds0 + walk_binds(steps@) == bind_views(binds.binds@) + walk_binds(
                steps@.skip(i as int),
            ),
        decreases steps@.len() - i,
    {
        let ghost bprev = binds.binds@;
        match &steps[i] {
            AstStep::Sql(s) => {
                out.push_sql(s.as_str());
            },
            AstStep::Identifier(name) => {
                out.push_identifier(name.as_str());
            },
            AstStep::Bind(v, t) => {
                out.push_bind_param();
                let _ = binds.push_bound_value(Ok((v.duplicate(), IsNull::No)), *t);
                proof {
                    assert(bind_views(binds.binds@) =~= bind_views(bprev).push((v@, *t)));
                }
            },
        }
        proof {
            assert(steps@.skip(i as int)[0] == steps@[i as int]);
            assert(steps@.skip(i as int).skip(1) =~= steps@.skip(i as int + 1));
            assert(sql0 + walk_sql(steps@) =~= out@ + walk_sql(steps@.skip(i as int + 1)));
            assert(binds0 + walk_binds(steps@) =~= bind_views(binds.binds@) + walk_binds(
                steps@.skip(i as int + 1),
            ));
        }
        i = i + 1;
    }
    proof {
        assert(final(out)@ =~= sql0 + walk_sql(steps@));
        assert(bind_views(final(binds).binds@) =~= binds0 + walk_binds(steps@));
    }
}

/// The bind-order invariant, over every query: for any walk whose raw SQL
/// fragments hold no placeholder mark and no quote delimiter, the emitted
/// text holds exactly one placeholder per collected bind entry — however
/// the identifiers and bound values read. Applied to each prefix of the
/// walk, it pins every entry to its placeholder's position.
pub proof fn lemma_walk_alignment(steps: Seq<AstStep>)
    requires
        plain_sql_steps(steps),
    ensures
        placeholder_count(walk_sql(steps)) == walk_binds(steps).len(),
        ident_state_after(walk_sql(steps), false) == false,
    decreases steps.len(),
{
    if steps.len() == 0 {
    } else {
        assert(plain_sql_steps(steps.skip(1))) by {
            assert forall|i: int| 0 <= i < steps.skip(1).len() implies plain_sql_step(
                #[trigger] steps.skip(1)[i],
            ) by {
                assert(steps.skip(1)[i] == steps[i + 1]);
            }
        }
        lemma_walk_alignment(steps.skip(1));
        assert(plain_sql_step(steps[0]));
        match steps[0] {
            AstStep::Sql(s) => {
                lemma_placeholders_plain(s@, false);
            },
            AstStep::Identifier(name) => {
                lemma_quoted_ident_no_placeholders(name@);
            },
            AstStep::Bind(_, _) => {
                reveal_with_fuel(placeholders_from, 2);
                reveal_with_fuel(ident_state_after, 2);
                assert(seq!['?'].skip(1) =~= Seq::<char>::empty());
            },
        }
        lemma_placeholders_concat(step_sql(steps[0]), walk_sql(steps.skip(1)), false);
    }
}

/// Positional alignment, spelled out: at any point of the walk, the text
/// emitted so far holds exactly as many placeholders as entries collected
/// so far. So when a bind step emits the placeholder at position `k`, its
/// entry lands at index `k` of the collector.
pub proof fn lemma_walk_prefix_alignment(steps: Seq<AstStep>, j: int)
    requires
        plain_sql_steps(steps),
        0 <= j <= steps.len(),
    ensures
        placeholder_count(walk_sql(steps.take(j))) == walk_binds(steps.take(j)).len(),
{
    assert(plain_sql_steps(steps.take(j))) by {
        assert forall|i: int| 0 <= i < steps.take(j).len() implies plain_sql_step(
            #[trigger] steps.take(j)[i],
        ) by {
            assert(steps.take(j)[i] == steps[i]);
        }
    }
    lemma_walk_alignment(steps.take(j));
}

} // verus!

//! Batch-insert rewriting.
//!
//! The engine's INSERT grammar cannot mix a DEFAULT keyword into a
//! multi-row VALUES list. A batch whose every cell is an explicit value is
//! therefore merged into one statement with one value tuple per row; a
//! batch with any "use column default" cell is split into one single-row
//! statement per row, executed sequentially with the affected-row counts
//! summed.

use vstd::prelude::*;

use crate::backend::TursoType;
use crate::bind_collector::{bind_views, IsNull, TursoBindCollector};
use crate::query_builder::{
    ident_state_after, lemma_placeholders_concat, lemma_placeholders_plain,
    lemma_quoted_ident_no_placeholders, placeholder_count, placeholders_from, quoted_ident,
    TursoQueryBuilder,
};
use crate::text::strings_view;
use crate::value::{Scalar, TursoValue};

verus! {

/// One cell of an insert row: an explicit bound value with its declared
/// type, or an instruction to use the column's default.
pub enum InsertValue {
    Default,
    Expression(TursoValue, TursoType),
}

/// How a batch insert is executed: a `Uniform` batch merges into one
/// multi-row statement, a `Mixed` batch splits into one statement per row.
#[derive(Debug, Clone, Copy, PartialEq, Eq, Structural)]
pub enum BatchDecision {
    Uniform,
    Mixed,
}

/// A rendered statement: SQL text and bind entries in placeholder order,
/// immutable once produced.
pub struct RenderedStatement {
    pub sql: String,
    pub binds: Vec<(TursoValue, TursoType)>,
}

/// Whether some cell of the row asks for its column's default.
pub open spec fn row_has_default(row: Seq<InsertValue>) -> bool {
    exists|i: int| 0 <= i < row.len() && row[i] is Default
}

/// Whether some cell anywhere in the batch asks for a column default.
pub open spec fn batch_has_default(rows: Seq<Vec<InsertValue>>) -> bool {
    exists|i: int| 0 <= i < rows.len() && #[trigger] row_has_default(rows[i]@)
}

/// The classification of a batch, computed once per insert statement.
pub open spec fn decision_spec(rows: Seq<Vec<InsertValue>>) -> BatchDecision {
    if batch_has_default(rows) {
        BatchDecision::Mixed
    } else {
        BatchDecision::Uniform
    }
}

/// Whether some cell of the row asks for its column's default.
pub fn row_contains_default(row: &Vec<InsertValue>) -> (r: bool)
    ensures
        r == row_has_default(row@),
{
    let mut i: usize = 0;
    while i < row.len()
        invariant
            i <= row@.len(),
            forall|j: int| 0 <= j < i ==> !(row@[j] is Default),
        decreases row@.len() - i,
    {
        if matches!(&row[i], InsertValue::Default) {
            return true;
        }
        i = i + 1;
    }
    false
}

/// Whether some cell anywhere in the batch asks for a column default.
pub fn contains_defaultable_value(rows: &Vec<Vec<InsertValue>>) -> (r: bool)
    ensures
        r == batch_has_default(rows@),
{
    let mut i: usize = 0;
    while i < rows.len()
        invariant
            i <= rows@.len(),
            forall|j: int| 0 <= j < i ==> !(#[trigger] row_has_default(rows@[j]@)),
        decreases rows@.len() - i,
    {
        if row_contains_default(&rows[i]) {
            return true;
        }
        i = i + 1;
    }
    false
}

/// Classifies a batch: `Mixed` exactly when some cell uses a column
/// default, else `Uniform`.
pub fn classify_batch(rows: &Vec<Vec<InsertValue>>) -> (d: BatchDecision)
    ensures
        d == decision_spec(rows@),
{
    if contains_defaultable_value(rows) {
        BatchDecision::Mixed
    } else {
        BatchDecision::Uniform
    }
}

/// The rendered column list after the first column: each further column
/// preceded by a comma.
pub open spec fn columns_sql_rest(columns: Seq<Seq<char>>) -> Seq<char>
    decreases columns.len(),
{
    if columns.len() == 0 {
        Seq::empty()
    } else {
        ", "@ + quoted_ident(columns[0]) + columns_sql_rest(columns.skip(1))
    }
}

/// The rendered column list: quoted identifiers, comma separated.
pub open spec fn columns_sql(columns: Seq<Seq<char>>) -> Seq<char> {
    if columns.len() == 0 {
        Seq::empty()
    } else {
        quoted_ident(columns[0]) + columns_sql_rest(columns.skip(1))
    }
}

/// The rendering of one cell: a bind placeholder for an explicit value,
/// the DEFAULT keyword for a defaulted column.
pub open spec fn cell_sql(cell: InsertValue) -> Seq<char> {
    match cell {
        InsertValue::Default => "DEFAULT"@,
        InsertValue::Expression(_, _) => seq!['?'],
    }
}

/// The rendered cell list after the first cell.
pub open spec fn cells_sql_rest(row: Seq<InsertValue>) -> Seq<char>
    decreases row.len(),
{
    if row.len() == 0 {
        Seq::empty()
    } else {
        ", "@ + cell_sql(row[0]) + cells_sql_rest(row.skip(1))
    }
}

/// The rendered cell list of one row, comma separated.
pub open spec fn cells_sql(row: Seq<InsertValue>) -> Seq<char> {
    if row.len() == 0 {
        Seq::empty()
    } else {
        cell_sql(row[0]) + cells_sql_rest(row.skip(1))
    }
}

/// One value tuple: the rendered cells between parentheses.
pub open spec fn row_tuple_sql(row: Seq<InsertValue>) -> Seq<char> {
    "("@ + cells_sql(row) + ")"@
}

/// The value tuples after the first row.
pub open spec fn tuples_sql_rest(rows: Seq<Vec<InsertValue>>) -> Seq<char>
    decreases rows.len(),
{
    if rows.len() == 0 {
        Seq::empty()
    } else {
        ", "@ + row_tuple_sql(rows[0]@) + tuples_sql_rest(rows.skip(1))
    }
}

/// The complete INSERT statement text for the given non-empty row set,
/// opened by the given insert operator (plain `INSERT`, or a
/// conflict-resolving form such as `REPLACE`).
pub open spec fn insert_sql(
    operator: Seq<char>,
    table: Seq<char>,
    columns: Seq<Seq<char>>,
    rows: Seq<Vec<InsertValue>>,
) -> Seq<char>
    recommends
        rows.len() > 0,
{
    operator + " INTO "@ + quoted_ident(table) + " ("@ + columns_sql(columns) + ") VALUES "@
        + row_tuple_sql(rows[0]@) + tuples_sql_rest(rows.skip(1))
}

/// The bind entries one cell contributes: the explicit value with its
/// declared type, or nothing for a defaulted column.
pub open spec fn cell_bind_views(cell: InsertValue) -> Seq<(Scalar, TursoType)> {
    match cell {
        InsertValue::Default => Seq::empty(),
        InsertValue::Expression(v, t) => seq![(v@, t)],
    }
}

/// The bind entries of one row, in column order.
pub open spec fn row_bind_views(row: Seq<InsertValue>) -> Seq<(Scalar, TursoType)>
    decreases row.len(),
{
    if row.len() == 0 {
        Seq::empty()
    } else {
        cell_bind_views(row[0]) + row_bind_views(row.skip(1))
    }
}

/// The bind entries of a batch, row-major.
pub open spec fn batch_bind_views(rows: Seq<Vec<InsertValue>>) -> Seq<(Scalar, TursoType)>
    decreases rows.len(),
{
    if rows.len() == 0 {
        Seq::empty()
    } else {
        row_bind_views(rows[0]@) + batch_bind_views(rows.skip(1))
    }
}

/// Renders the quoted, comma-separated column list.
fn push_columns(out: &mut TursoQueryBuilder, columns: &Vec<String>)
    ensures
        final(out)@ == old(out)@ + columns_sql(strings_view(columns@)),
{
    let ghost sql0 = old(out)@;
    let ghost colsv = strings_view(columns@);
    let mut i: usize = 0;
    while i < columns.len()
        invariant
            i <= columns@.len(),
            colsv == strings_view(columns@),
            colsv.len() == columns@.len(),
            sql0 + columns_sql(colsv) == out@ + (if i == 0 {
                columns_sql(colsv)
            } else {
                columns_sql_rest(colsv.skip(i as int))
            }),
        decreases columns@.len() - i,
    {
        if i > 0 {
            out.push_sql(", ");
        }
        out.push_identifier(columns[i].as_str());
        proof {
            assert(colsv[i as int] == columns@[i as int]@);
            if i == 0 {
                assert(colsv.skip(0) =~= colsv);
                assert(colsv.skip(0).skip(1) =~= colsv.skip(1));
                assert(sql0 + columns_sql(colsv) =~= out@ + columns_sql_rest(colsv.skip(1)));
            } else {
                assert(colsv.skip(i as int)[0] == colsv[i as int]);
                assert(colsv.skip(i as int).skip(1) =~= colsv.skip(i as int + 1));
                assert(sql0 + columns_sql(colsv) =~= out@ + columns_sql_rest(
                    colsv.skip(i as int + 1),
                ));
            }
        }
        i = i + 1;
    }
    proof {
        assert(final(out)@ =~= sql0 + columns_sql(colsv));
    }
}

/// Renders one value tuple and collects its binds in lockstep: each
/// explicit cell emits one placeholder and appends one entry, each
/// defaulted cell emits the DEFAULT keyword and appends nothing.
fn push_row_tuple(out: &mut TursoQueryBuilder, binds: &mut TursoBindCollector, row: &Vec<
    InsertValue,
>)
    ensures
        final(out)@ == old(out)@ + row_tuple_sql(row@),
        bind_views(final(binds).binds@) == bind_views(old(binds).binds@) + row_bind_views(row@),
{
    let ghost sql0 = old(out)@;
    let ghost binds0 = bind_views(old(binds).binds@);
    out.push_sql("(");
    let mut i: usize = 0;
    proof {
        assert(row@.skip(0) =~= row@);
    }
    while i < row.len()
        invariant
            i <= row@.len(),
            sql0 + "("@ + cells_sql(row@) == out@ + (if i == 0 {
                cells_sql(row@)
            } else {
                cells_sql_rest(row@.skip(i as int))
            }),
            binds0 + row_bind_views(row@) == bind_views(binds.binds@) + row_bind_views(
                row@.skip(i as int),
            ),
        decreases row@.len() - i,
    {
        if i > 0 {
            out.push_sql(", ");
        }
        let ghost bprev = binds.binds@;
        match &row[i] {
            InsertValue::Default => {
                out.push_sql("DEFAULT");
            },
            InsertValue::Expression(v, t) => {
                out.push_bind_param();
                let _ = binds.push_bound_value(Ok((v.duplicate(), IsNull::No)), *t);
                proof {
                    assert(bind_views(binds.binds@) =~= bind_views(bprev).push((v@, *t)));
                }
            },
        }
        proof {
            assert(row@.skip(i as int)[0] == row@[i as int]);
            assert(row@.skip(i as int).skip(1) =~= row@.skip(i as int + 1));
            if i == 0 {
                assert(row@.skip(0) =~= row@);
            }
            assert(sql0 + "("@ + cells_sql(row@) =~= out@ + cells_sql_rest(
                row@.skip(i as int + 1),
            ));
            assert(binds0 + row_bind_views(row@) =~= bind_views(binds.binds@) + row_bind_views(
                row@.skip(i as int + 1),
            ));
        }
        i = i + 1;
    }
    out.push_sql(")");
    proof {
        assert(final(out)@ =~= sql0 + row_tuple_sql(row@));
        assert(bind_views(final(binds).binds@) =~= binds0 + row_bind_views(row@));
    }
}

/// Renders one INSERT statement covering all the given rows: the value
/// tuples follow each other comma-separated, and the binds are collected
/// in row-major placeholder order.
pub fn render_insert(
    operator: &str,
    table: &str,
    columns: &Vec<String>,
    rows: &Vec<Vec<InsertValue>>,
) -> (r: RenderedStatement)
    requires
        rows@.len() > 0,
    ensures
        r.sql@ == insert_sql(operator@, table@, strings_view(columns@), rows@),
        bind_views(r.binds@) == batch_bind_views(rows@),
{
    let mut out = TursoQueryBuilder::new();
    let mut binds = TursoBindCollector::new();
    out.push_sql(operator);
    out.push_sql(" INTO ");
    out.push_identifier(table);
    out.push_sql(" (");
    push_columns(&mut out, columns);
    out.push_sql(") VALUES ");
    let ghost head = out@;
    proof {
        assert(head =~= operator@ + " INTO "@ + quoted_ident(table@) + " ("@ + columns_sql(
            strings_view(columns@),
        ) + ") VALUES "@);
    }
    push_row_tuple(&mut out, &mut binds, &rows[0]);
    proof {
        assert(bind_views(binds.binds@) =~= row_bind_views(rows@[0]@));
        assert(head + row_tuple_sql(rows@[0]@) + tuples_sql_rest(rows@.skip(1)) =~= out@
            + tuples_sql_rest(rows@.skip(1)));
        assert(row_bind_views(rows@[0]@) + batch_bind_views(rows@.skip(1)) =~= bind_views(
            binds.binds@,
        ) + batch_bind_views(rows@.skip(1)));
    }
    let mut i: usize = 1;
    while i < rows.len()
        invariant
            1 <= i <= rows@.len(),
            head + row_tuple_sql(rows@[0]@) + tuples_sql_rest(rows@.skip(1)) == out@
                + tuples_sql_rest(rows@.skip(i as int)),
            row_bind_views(rows@[0]@) + batch_bind_views(rows@.skip(1)) == bind_views(
                binds.binds@,
            ) + batch_bind_views(rows@.skip(i as int)),
        decreases rows@.len() - i,
    {
        out.push_sql(", ");
        push_row_tuple(&mut out, &mut binds, &rows[i]);
        proof {
            assert(rows@.skip(i as int)[0] == rows@[i as int]);
            assert(rows@.skip(i as int).skip(1) =~= rows@.skip(i as int + 1));
            assert(head + row_tuple_sql(rows@[0]@) + tuples_sql_rest(rows@.skip(1)) =~= out@
                + tuples_sql_rest(rows@.skip(i as int + 1)));
            assert(row_bind_views(rows@[0]@) + batch_bind_views(rows@.skip(1)) =~= bind_views(
                binds.binds@,
            ) + batch_bind_views(rows@.skip(i as int + 1)));
        }
        i = i + 1;
    }
    proof {
        assert(tuples_sql_rest(rows@.skip(rows@.len() as int)).len() == 0);
        assert(batch_bind_views(rows@.skip(rows@.len() as int)).len() == 0);
        assert(out@ =~= insert_sql(operator@, table@, strings_view(columns@), rows@));
        assert(bind_views(binds.binds@) =~= batch_bind_views(rows@));
    }
    RenderedStatement { sql: out.finish(), binds: binds.binds }
}

/// One statement of a split batch covers exactly one row: its text is the
/// single-row INSERT and its binds are that row's entries.
pub open spec fn single_row_statement_ok(
    stmt: RenderedStatement,
    operator: Seq<char>,
    table: Seq<char>,
    columns: Seq<Seq<char>>,
    row: Vec<InsertValue>,
) -> bool {
    &&& stmt.sql@ == insert_sql(operator, table, columns, seq![row])
    &&& bind_views(stmt.binds@) == row_bind_views(row@)
}

/// Builds the statements that execute a batch insert: one multi-row
/// statement when no cell uses a column default, else one single-row
/// statement per row, in row order, to be executed sequentially.
pub fn build_insert_statements(
    operator: &str,
    table: &str,
    columns: &Vec<String>,
    rows: Vec<Vec<InsertValue>>,
) -> (r: Vec<RenderedStatement>)
    requires
        rows@.len() > 0,
    ensures
        decision_spec(rows@) is Uniform ==> r@.len() == 1,
        decision_spec(rows@) is Uniform ==> r@[0].sql@ == insert_sql(
            operator@,
            table@,
            strings_view(columns@),
            rows@,
        ),
        decision_spec(rows@) is Uniform ==> bind_views(r@[0].binds@) == batch_bind_views(rows@),
        decision_spec(rows@) is Mixed ==> r@.len() == rows@.len(),
        decision_spec(rows@) is Mixed ==> forall|i: int|
            0 <= i < rows@.len() ==> single_row_statement_ok(
                #[trigger] r@[i],
                operator@,
                table@,
                strings_view(columns@),
                rows@[i],
            ),
{
    let decision = classify_batch(&rows);
    match decision {
        BatchDecision::Uniform => {
            let stmt = render_insert(operator, table, columns, &rows);
            let mut out: Vec<RenderedStatement> = Vec::new();
            out.push(stmt);
            out
        },
        BatchDecision::Mixed => {
            let ghost rows0 = rows@;
            let mut remaining = rows;
            let mut out: Vec<RenderedStatement> = Vec::new();
            proof {
                assert(rows0.skip(0) =~= rows0);
            }
            while remaining.len() > 0
                invariant
                    out@.len() <= rows0.len(),
                    remaining@ == rows0.skip(out@.len() as int),
                    forall|i: int|
                        0 <= i < out@.len() ==> single_row_statement_ok(
                            #[trigger] out@[i],
                            operator@,
                            table@,
                            strings_view(columns@),
                            rows0[i],
                        ),
                decreases remaining@.len(),
            {
                let ghost k = out@.len() as int;
                let row = remaining.remove(0);
                proof {
                    assert(row == rows0[k]);
                    assert(rows0.skip(k).remove(0) =~= rows0.skip(k + 1));
                }
                let mut single: Vec<Vec<InsertValue>> = Vec::new();
                single.push(row);
                let stmt = render_insert(operator, table, columns, &single);
                proof {
                    assert(single@ =~= seq![rows0[k]]);
                    assert(single@.skip(1) =~= Seq::<Vec<InsertValue>>::empty());
                    assert(batch_bind_views(single@.skip(1)).len() == 0);
                    assert(batch_bind_views(single@) == row_bind_views(single@[0]@)
                        + batch_bind_views(single@.skip(1)));
                    assert(single@[0] == rows0[k]);
                    assert(batch_bind_views(single@) =~= row_bind_views(rows0[k]@));
                }
                out.push(stmt);
            }
            proof {
                assert(out@.len() == rows0.len());
            }
            out
        },
    }
}

/// The total of a sequence of per-statement affected-row counts.
pub open spec fn counts_sum(s: Seq<usize>) -> int
    decreases s.len(),
{
    if s.len() == 0 {
        0
    } else {
        s[0] + counts_sum(s.skip(1))
    }
}

proof fn lemma_counts_sum_nonneg(s: Seq<usize>)
    ensures
        counts_sum(s) >= 0,
    decreases s.len(),
{
    if s.len() == 0 {
    } else {
        lemma_counts_sum_nonneg(s.skip(1));
    }
}

/// Adds up the affected-row counts of sequentially executed single-row
/// statements; `None` when the total does not fit the machine word.
pub fn sum_counts(counts: &Vec<usize>) -> (r: Option<usize>)
    ensures
        match r {
            Some(total) => total == counts_sum(counts@),
            None => counts_sum(counts@) > usize::MAX,
        },
{
    let mut total: usize = 0;
    let mut i: usize = 0;
    proof {
        assert(counts@.skip(0) =~= counts@);
    }
    while i < counts.len()
        invariant
            i <= counts@.len(),
            counts_sum(counts@) == total + counts_sum(counts@.skip(i as int)),
        decreases counts@.len() - i,
    {
        let c = counts[i];
        proof {
            assert(counts@.skip(i as int)[0] == counts@[i as int]);
            assert(counts@.skip(i as int).skip(1) =~= counts@.skip(i as int + 1));
            lemma_counts_sum_nonneg(counts@.skip(i as int + 1));
        }
        if total > usize::MAX - c {
            return None;
        }
        total = total + c;
        i = i + 1;
    }
    Some(total)
}

proof fn lemma_cell_alignment(cell: InsertValue)
    ensures
        placeholders_from(cell_sql(cell), false) == cell_bind_views(cell).len(),
        ident_state_after(cell_sql(cell), false) == false,
{
    match cell {
        InsertValue::Default => {
            reveal_strlit("DEFAULT");
            lemma_placeholders_plain("DEFAULT"@, false);
        },
        InsertValue::Expression(_, _) => {
            reveal_with_fuel(placeholders_from, 2);
            reveal_with_fuel(ident_state_after, 2);
            assert(seq!['?'].skip(1) =~= Seq::<char>::empty());
        },
    }
}

proof fn lemma_cells_rest_alignment(row: Seq<InsertValue>)
    ensures
        placeholders_from(cells_sql_rest(row), false) == row_bind_views(row).len(),
        ident_state_after(cells_sql_rest(row), false) == false,
    decreases row.len(),
{
    if row.len() == 0 {
    } else {
        lemma_cells_rest_alignment(row.skip(1));
        lemma_cell_alignment(row[0]);
        reveal_strlit(", ");
        lemma_placeholders_plain(", "@, false);
        lemma_placeholders_concat(cell_sql(row[0]), cells_sql_rest(row.skip(1)), false);
        lemma_placeholders_concat(", "@, cell_sql(row[0]) + cells_sql_rest(row.skip(1)), false);
        assert(cells_sql_rest(row) =~= ", "@ + (cell_sql(row[0]) + cells_sql_rest(row.skip(1))));
    }
}

proof fn lemma_row_tuple_alignment(row: Seq<InsertValue>)
    ensures
        placeholders_from(row_tuple_sql(row), false) == row_bind_views(row).len(),
        ident_state_after(row_tuple_sql(row), false) == false,
{
    reveal_strlit("(");
    reveal_strlit(")");
    lemma_placeholders_plain("("@, false);
    lemma_placeholders_plain(")"@, false);
    if row.len() > 0 {
        lemma_cells_rest_alignment(row.skip(1));
        lemma_cell_alignment(row[0]);
        lemma_placeholders_concat(cell_sql(row[0]), cells_sql_rest(row.skip(1)), false);
    }
    lemma_placeholders_concat("("@, cells_sql(row), false);
    lemma_placeholders_concat("("@ + cells_sql(row), ")"@, false);
    assert(row_tuple_sql(row) =~= ("("@ + cells_sql(row)) + ")"@);
}

proof fn lemma_tuples_rest_alignment(rows: Seq<Vec<InsertValue>>)
    ensures
        placeholders_from(tuples_sql_rest(rows), false) == batch_bind_views(rows).len(),
        ident_state_after(tuples_sql_rest(rows), false) == false,
    decreases rows.len(),
{
    if rows.len() == 0 {
    } else {
        lemma_tuples_rest_alignment(rows.skip(1));
        lemma_row_tuple_alignment(rows[0]@);
        reveal_strlit(", ");
        lemma_placeholders_plain(", "@, false);
        lemma_placeholders_concat(row_tuple_sql(rows[0]@), tuples_sql_rest(rows.skip(1)), false);
        lemma_placeholders_concat(
            ", "@,
            row_tuple_sql(rows[0]@) + tuples_sql_rest(rows.skip(1)),
            false,
        );
        assert(tuples_sql_rest(rows) =~= ", "@ + (row_tuple_sql(rows[0]@) + tuples_sql_rest(
            rows.skip(1),
        )));
    }
}

proof fn lemma_columns_rest_alignment(columns: Seq<Seq<char>>)
    ensures
        placeholders_from(columns_sql_rest(columns), false) == 0,
        ident_state_after(columns_sql_rest(columns), false) == false,
    decreases columns.len(),
{
    if columns.len() == 0 {
    } else {
        lemma_columns_rest_alignment(columns.skip(1));
        lemma_quoted_ident_no_placeholders(columns[0]);
        reveal_strlit(", ");
        lemma_placeholders_plain(", "@, false);
        lemma_placeholders_concat(
            quoted_ident(columns[0]),
            columns_sql_rest(columns.skip(1)),
            false,
        );
        lemma_placeholders_concat(
            ", "@,
            quoted_ident(columns[0]) + columns_sql_rest(columns.skip(1)),
            false,
        );
        assert(columns_sql_rest(columns) =~= ", "@ + (quoted_ident(columns[0])
            + columns_sql_rest(columns.skip(1))));
    }
}

proof fn lemma_columns_alignment(columns: Seq<Seq<char>>)
    ensures
        placeholders_from(columns_sql(columns), false) == 0,
        ident_state_after(columns_sql(columns), false) == false,
{
    if columns.len() > 0 {
        lemma_columns_rest_alignment(columns.skip(1));
        lemma_quoted_ident_no_placeholders(columns[0]);
        lemma_placeholders_concat(
            quoted_ident(columns[0]),
            columns_sql_rest(columns.skip(1)),
            false,
        );
    }
}

/// Bind-order alignment for every batch-insert shape: the rendered
/// statement holds exactly one placeholder per collected bind entry,
/// whatever the table name, column names and cells contain, for any
/// insert operator free of placeholders and quote delimiters.
pub proof fn lemma_insert_alignment(
    operator: Seq<char>,
    table: Seq<char>,
    columns: Seq<Seq<char>>,
    rows: Seq<Vec<InsertValue>>,
)
    requires
        rows.len() > 0,
        forall|i: int| 0 <= i < operator.len() ==> operator[i] != '?' && operator[i] != '`',
    ensures
        placeholder_count(insert_sql(operator, table, columns, rows)) == batch_bind_views(
            rows,
        ).len(),
{
    reveal_strlit(" INTO ");
    reveal_strlit(" (");
    reveal_strlit(") VALUES ");
    lemma_placeholders_plain(operator, false);
    lemma_placeholders_plain(" INTO "@, false);
    lemma_placeholders_plain(" ("@, false);
    lemma_placeholders_plain(") VALUES "@, false);
    lemma_quoted_ident_no_placeholders(table);
    lemma_columns_alignment(columns);
    lemma_row_tuple_alignment(rows[0]@);
    lemma_tuples_rest_alignment(rows.skip(1));
    lemma_placeholders_concat(operator, " INTO "@, false);
    lemma_placeholders_concat(operator + " INTO "@, quoted_ident(table), false);
    lemma_placeholders_concat(operator + " INTO "@ + quoted_ident(table), " ("@, false);
    lemma_placeholders_concat(
        operator + " INTO "@ + quoted_ident(table) + " ("@,
        columns_sql(columns),
        false,
    );
    lemma_placeholders_concat(
        operator + " INTO "@ + quoted_ident(table) + " ("@ + columns_sql(columns),
        ") VALUES "@,
        false,
    );
    lemma_placeholders_concat(
        operator + " INTO "@ + quoted_ident(table) + " ("@ + columns_sql(columns) + ") VALUES "@,
        row_tuple_sql(rows[0]@),
        false,
    );
    lemma_placeholders_concat(
        operator + " INTO "@ + quoted_ident(table) + " ("@ + columns_sql(columns) + ") VALUES "@
            + row_tuple_sql(rows[0]@),
        tuples_sql_rest(rows.skip(1)),
        false,
    );
}

/// When a split batch of `n` rows succeeds row by row, each statement
/// affecting one row, the summed count is `n`.
pub proof fn lemma_unit_counts_sum(counts: Seq<usize>)
    requires
        forall|i: int| 0 <= i < counts.len() ==> counts[i] == 1,
    ensures
        counts_sum(counts) == counts.len(),
    decreases counts.len(),
{
    if counts.len() == 0 {
    } else {
        assert(forall|i: int| 0 <= i < counts.skip(1).len() ==> counts.skip(1)[i] == 1);
        lemma_unit_counts_sum(counts.skip(1));
    }
}

} // verus!

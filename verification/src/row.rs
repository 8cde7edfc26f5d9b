//! Accumulating rows of typed values for one table.
//!
//! A `RowBuilder` holds a table name, the columns declared so far and, for each
//! column, the values appended to it. A row arrives as one foreign `Value` per
//! column; which member of the value is read is decided by the type the column
//! was declared with.

use vstd::prelude::*;
use crate::column::{Column, ColumnView, Values, ValuesView};
use crate::error::Error;
use crate::schema::{known_data_type, known_semantic_type, DataType};
use crate::value::{Value, ValueView};

verus! {

/// The contents of a sequence of columns.
pub open spec fn column_views(columns: Seq<Column>) -> Seq<ColumnView> {
    columns.map_values(|c: Column| c@)
}

/// The contents of a sequence of cells.
pub open spec fn value_views(values: Seq<Value>) -> Seq<ValueView> {
    values.map_values(|v: Value| v@)
}

/// The first position at or after `from` whose cell cannot be appended to its
/// column; the number of columns where there is none.
pub open spec fn first_rejected(columns: Seq<ColumnView>, values: Seq<ValueView>, from: int) -> int
    decreases columns.len() - from,
{
    if from < 0 || from >= columns.len() {
        columns.len() as int
    } else if columns[from].appended(values[from]) is Err {
        from
    } else {
        first_rejected(columns, values, from + 1)
    }
}

/// `first_rejected` is the least position that fails.
pub proof fn lemma_first_rejected(columns: Seq<ColumnView>, values: Seq<ValueView>, from: int)
    requires
        0 <= from <= columns.len(),
    ensures
        from <= first_rejected(columns, values, from) <= columns.len(),
        forall|j: int|
            from <= j < first_rejected(columns, values, from) ==> (#[trigger] columns[j]).appended(
                values[j],
            ) is Ok,
        first_rejected(columns, values, from) < columns.len() ==> columns[first_rejected(
            columns,
            values,
            from,
        )].appended(values[first_rejected(columns, values, from)]) is Err,
    decreases columns.len() - from,
{
    if from < columns.len() && columns[from].appended(values[from]) is Ok {
        lemma_first_rejected(columns, values, from + 1);
    }
}

/// A position that fails after none but successes is `first_rejected`.
pub proof fn lemma_first_rejected_is(columns: Seq<ColumnView>, values: Seq<ValueView>, from: int, at: int)
    requires
        0 <= from <= at <= columns.len(),
        forall|j: int| from <= j < at ==> (#[trigger] columns[j]).appended(values[j]) is Ok,
        at < columns.len() ==> columns[at].appended(values[at]) is Err,
    ensures
        first_rejected(columns, values, from) == at,
    decreases at - from,
{
    if from < at {
        assert(columns[from].appended(values[from]) is Ok);
        lemma_first_rejected_is(columns, values, from + 1, at);
    }
}

/// The number of rows as a batch carries it. The protocol counts rows in 32
/// bits: a larger count is cut to its low 32 bits.
pub open spec fn spec_wire_row_count(rows: nat) -> u32 {
    (rows % 0x1_0000_0000) as u32
}

/// The number of rows as a batch carries it: `rows` modulo two to the power
/// of 32.
pub fn wire_row_count(rows: usize) -> (n: u32)
    ensures
        n == spec_wire_row_count(rows as nat),
{
    ((rows as u64) % 0x1_0000_0000u64) as u32
}

/// The mathematical content of a `RowBuilder`.
#[verifier::ext_equal]
pub struct RowBuilderView {
    pub table_name: Seq<char>,
    pub columns: Seq<ColumnView>,
    pub rows: nat,
}

impl RowBuilderView {
    /// A builder for `table_name` with no column and no row.
    pub open spec fn new(table_name: Seq<char>) -> RowBuilderView {
        RowBuilderView { table_name: table_name, columns: Seq::empty(), rows: 0 }
    }

    /// Every column holds as many values as rows were appended.
    pub open spec fn in_lockstep(self) -> bool {
        forall|i: int| 0 <= i < self.columns.len() ==> (#[trigger] self.columns[i]).len() == self.rows
    }

    /// Whether a column can be declared with these codes.
    pub open spec fn accepts_column(data_type: i32, semantic_type: i32) -> bool {
        known_data_type(data_type) && known_semantic_type(semantic_type)
    }

    /// The builder after a column is declared.
    pub open spec fn with_column(self, name: Seq<char>, data_type: i32, semantic_type: i32) -> RowBuilderView {
        RowBuilderView {
            columns: self.columns.push(
                ColumnView {
                    column_name: name,
                    semantic_type: semantic_type,
                    datatype: data_type,
                    values: ValuesView::empty(),
                },
            ),
            ..self
        }
    }

    /// The position of the first cell of `values` that cannot be appended to
    /// its column; the number of columns where every cell can.
    pub open spec fn rejected_at(self, values: Seq<ValueView>) -> int {
        first_rejected(self.columns, values, 0)
    }

    /// What appending the row `values` returns.
    pub open spec fn row_outcome(self, values: Seq<ValueView>) -> Result<(), Error> {
        if values.len() != self.columns.len() {
            Err(
                Error::SchemaMismatch {
                    value_len: values.len() as usize,
                    schema_len: self.columns.len() as usize,
                },
            )
        } else if self.rejected_at(values) < self.columns.len() {
            Err(self.columns[self.rejected_at(values)].appended(values[self.rejected_at(values)])->Err_0)
        } else {
            Ok(())
        }
    }

    /// The builder after the row `values` is appended.
    ///
    /// A row of the wrong length changes nothing. Otherwise the cells are
    /// appended in order up to the first that cannot be; the row counts only
    /// if all of them were.
    pub open spec fn after_row(self, values: Seq<ValueView>) -> RowBuilderView {
        if values.len() != self.columns.len() {
            self
        } else {
            RowBuilderView {
                columns: Seq::new(
                    self.columns.len(),
                    |i: int|
                        if i < self.rejected_at(values) {
                            self.columns[i].appended(values[i])->Ok_0
                        } else {
                            self.columns[i]
                        },
                ),
                rows: if self.rejected_at(values) < self.columns.len() {
                    self.rows
                } else {
                    self.rows + 1
                },
                ..self
            }
        }
    }

    /// Whether the cell at `index` of a row of `row_len` cells is read through
    /// its string pointer.
    pub open spec fn reads_text(self, row_len: nat, index: int) -> bool {
        row_len == self.columns.len() && 0 <= index < self.columns.len() && self.columns[index].datatype
            == DataType::String.spec_code()
    }

    /// The builder after its rows are taken out: the same columns, no values.
    pub open spec fn drained(self) -> RowBuilderView {
        RowBuilderView {
            columns: self.columns.map_values(|c: ColumnView| c.emptied()),
            rows: 0,
            ..self
        }
    }

    /// The batch that taking the rows out gives.
    pub open spec fn batch(self) -> BatchView {
        BatchView {
            table_name: self.table_name,
            columns: self.columns,
            row_count: spec_wire_row_count(self.rows),
        }
    }
}

/// A column declaration: name, type code and role code.
pub struct ColumnDecl {
    pub name: Seq<char>,
    pub data_type: i32,
    pub semantic_type: i32,
}

impl RowBuilderView {
    /// The builder after an attempt to declare a column: with the column where
    /// its codes are accepted, unchanged where they are not.
    pub open spec fn declared(self, decl: ColumnDecl) -> RowBuilderView {
        if Self::accepts_column(decl.data_type, decl.semantic_type) {
            self.with_column(decl.name, decl.data_type, decl.semantic_type)
        } else {
            self
        }
    }

    /// The builder after attempts to declare columns, one after the other.
    pub open spec fn after_columns(self, decls: Seq<ColumnDecl>) -> RowBuilderView
        decreases decls.len(),
    {
        if decls.len() == 0 {
            self
        } else {
            self.after_columns(decls.drop_last()).declared(decls.last())
        }
    }

    /// The builder after rows are appended, one after the other.
    pub open spec fn after_rows(self, rows: Seq<Seq<ValueView>>) -> RowBuilderView
        decreases rows.len(),
    {
        if rows.len() == 0 {
            self
        } else {
            self.after_rows(rows.drop_last()).after_row(rows.last())
        }
    }

    /// Whether appending the row `values` leaves columns of unequal length
    /// behind: it does where a cell other than the first cannot be read,
    /// since the cells before it stay appended.
    pub open spec fn broken_by(self, values: Seq<ValueView>) -> bool {
        values.len() == self.columns.len() && 0 < self.rejected_at(values) < self.columns.len()
    }

    /// The number of rows that are accepted when `rows` are appended one
    /// after the other.
    pub open spec fn accepted_rows(self, rows: Seq<Seq<ValueView>>) -> nat
        decreases rows.len(),
    {
        if rows.len() == 0 {
            0
        } else if self.after_rows(rows.drop_last()).row_outcome(rows.last()) is Ok {
            self.accepted_rows(rows.drop_last()) + 1
        } else {
            self.accepted_rows(rows.drop_last())
        }
    }

    /// Whether none of the rows, appended one after the other, leaves columns
    /// of unequal length behind.
    pub open spec fn keeps_rows_whole(self, rows: Seq<Seq<ValueView>>) -> bool
        decreases rows.len(),
    {
        rows.len() > 0 ==> self.keeps_rows_whole(rows.drop_last()) && !self.after_rows(
            rows.drop_last(),
        ).broken_by(rows.last())
    }
}

/// A cell that is appended adds one value to the column and leaves its
/// declaration alone.
pub proof fn lemma_appended_adds_one(column: ColumnView, value: ValueView)
    ensures
        column.appended(value) matches Ok(c) ==> c.len() == column.len() + 1 && c.column_name
            == column.column_name && c.datatype == column.datatype && c.semantic_type
            == column.semantic_type,
{
}

/// A new builder is in lockstep, and declaring columns before any row keeps
/// it so.
pub proof fn lemma_columns_keep_lockstep(table_name: Seq<char>, decls: Seq<ColumnDecl>)
    ensures
        RowBuilderView::new(table_name).after_columns(decls).in_lockstep(),
        RowBuilderView::new(table_name).after_columns(decls).rows == 0,
        RowBuilderView::new(table_name).after_columns(decls).table_name == table_name,
    decreases decls.len(),
{
    if decls.len() > 0 {
        lemma_columns_keep_lockstep(table_name, decls.drop_last());
    }
}

/// A row counts exactly when it is accepted, and never changes the number of
/// columns or the table name.
pub proof fn lemma_row_counts_if_accepted(b: RowBuilderView, values: Seq<ValueView>)
    ensures
        b.after_row(values).rows == b.rows + (if b.row_outcome(values) is Ok {
            1nat
        } else {
            0nat
        }),
        b.after_row(values).columns.len() == b.columns.len(),
        b.after_row(values).table_name == b.table_name,
{
    lemma_first_rejected(b.columns, values, 0);
}

/// A row that is accepted adds one value to every column; a row that is
/// refused for its length, or at its first cell, adds none. Either way a
/// builder in lockstep stays so.
pub proof fn lemma_row_keeps_lockstep(b: RowBuilderView, values: Seq<ValueView>)
    requires
        !b.broken_by(values),
    ensures
        forall|i: int|
            0 <= i < b.columns.len() ==> (#[trigger] b.after_row(values).columns[i]).len()
                == b.columns[i].len() + (if b.row_outcome(values) is Ok {
                1nat
            } else {
                0nat
            }),
        b.in_lockstep() ==> b.after_row(values).in_lockstep(),
{
    lemma_first_rejected(b.columns, values, 0);
    lemma_row_counts_if_accepted(b, values);
    assert forall|i: int| 0 <= i < b.columns.len() implies (#[trigger] b.after_row(
        values,
    ).columns[i]).len() == b.columns[i].len() + (if b.row_outcome(values) is Ok {
        1nat
    } else {
        0nat
    }) by {
        if b.row_outcome(values) is Ok {
            assert(b.columns[i].appended(values[i]) is Ok);
            lemma_appended_adds_one(b.columns[i], values[i]);
        }
    }
}

/// A row of the wrong length is refused with `SchemaMismatch` and changes
/// nothing.
pub proof fn lemma_wrong_length_changes_nothing(b: RowBuilderView, values: Seq<ValueView>)
    requires
        values.len() != b.columns.len(),
    ensures
        b.row_outcome(values) == Err::<(), Error>(
            Error::SchemaMismatch {
                value_len: values.len() as usize,
                schema_len: b.columns.len() as usize,
            },
        ),
        b.after_row(values) == b,
{
}

/// Whatever rows are appended, the builder counts those that were accepted.
pub proof fn lemma_rows_counted_are_rows_accepted(b: RowBuilderView, rows: Seq<Seq<ValueView>>)
    ensures
        b.after_rows(rows).rows == b.rows + b.accepted_rows(rows),
        b.after_rows(rows).columns.len() == b.columns.len(),
        b.after_rows(rows).table_name == b.table_name,
        b.accepted_rows(rows) <= rows.len(),
    decreases rows.len(),
{
    if rows.len() > 0 {
        lemma_rows_counted_are_rows_accepted(b, rows.drop_last());
        lemma_row_counts_if_accepted(b.after_rows(rows.drop_last()), rows.last());
    }
}

/// As long as no row leaves columns of unequal length behind, every column
/// gains one value for each row that is accepted, and a builder in lockstep
/// stays so.
pub proof fn lemma_rows_keep_lockstep(b: RowBuilderView, rows: Seq<Seq<ValueView>>)
    requires
        b.keeps_rows_whole(rows),
    ensures
        forall|i: int|
            0 <= i < b.columns.len() ==> (#[trigger] b.after_rows(rows).columns[i]).len()
                == b.columns[i].len() + b.accepted_rows(rows),
        b.in_lockstep() ==> b.after_rows(rows).in_lockstep(),
    decreases rows.len(),
{
    lemma_rows_counted_are_rows_accepted(b, rows);
    if rows.len() > 0 {
        let earlier = b.after_rows(rows.drop_last());
        lemma_rows_counted_are_rows_accepted(b, rows.drop_last());
        lemma_rows_keep_lockstep(b, rows.drop_last());
        lemma_row_keeps_lockstep(earlier, rows.last());
        assert forall|i: int| 0 <= i < b.columns.len() implies (#[trigger] b.after_rows(
            rows,
        ).columns[i]).len() == b.columns[i].len() + b.accepted_rows(rows) by {
            assert(earlier.columns[i].len() == b.columns[i].len() + b.accepted_rows(rows.drop_last()));
            assert(earlier.after_row(rows.last()).columns[i].len() == earlier.columns[i].len() + (
            if earlier.row_outcome(rows.last()) is Ok {
                1nat
            } else {
                0nat
            }));
        }
    }
}

/// On a new builder, columns are declared and then rows appended. Afterwards
/// the builder counts the rows that were accepted, and, as long as no row
/// left columns of unequal length behind, every column holds that many
/// values.
pub proof fn lemma_row_count_is_rows_appended(
    table_name: Seq<char>,
    decls: Seq<ColumnDecl>,
    rows: Seq<Seq<ValueView>>,
)
    ensures
        RowBuilderView::new(table_name).after_columns(decls).after_rows(rows).rows
            == RowBuilderView::new(table_name).after_columns(decls).accepted_rows(rows),
        RowBuilderView::new(table_name).after_columns(decls).keeps_rows_whole(rows) ==> {
            let start = RowBuilderView::new(table_name).after_columns(decls);
            &&& start.after_rows(rows).in_lockstep()
            &&& forall|i: int|
                0 <= i < start.after_rows(rows).columns.len() ==> (#[trigger] start.after_rows(
                    rows,
                ).columns[i]).len() == start.accepted_rows(rows)
        },
{
    let start = RowBuilderView::new(table_name).after_columns(decls);
    lemma_columns_keep_lockstep(table_name, decls);
    lemma_rows_counted_are_rows_accepted(start, rows);
    if start.keeps_rows_whole(rows) {
        lemma_rows_keep_lockstep(start, rows);
    }
}

/// Draining leaves a builder that counts no row and holds no value, with
/// the columns as they were declared; a second drain right after the first
/// gives an empty batch with those columns and changes nothing more.
pub proof fn lemma_drain_twice(b: RowBuilderView)
    ensures
        b.drained().rows == 0,
        b.drained().table_name == b.table_name,
        b.drained().columns.len() == b.columns.len(),
        b.drained().in_lockstep(),
        forall|i: int|
            0 <= i < b.columns.len() ==> (#[trigger] b.drained().columns[i]) == (ColumnView {
                values: ValuesView::empty(),
                ..b.columns[i]
            }),
        b.drained().batch().row_count == 0,
        b.drained().batch().table_name == b.table_name,
        b.drained().batch().columns == b.drained().columns,
        b.drained().drained() == b.drained(),
{
    assert(b.drained().drained().columns =~= b.drained().columns);
}

/// The rows accumulated for one table, ready to be sent.
#[derive(Debug, PartialEq, Eq)]
pub struct Batch {
    pub table_name: String,
    pub columns: Vec<Column>,
    pub row_count: u32,
}

/// The mathematical content of a `Batch`.
#[verifier::ext_equal]
pub struct BatchView {
    pub table_name: Seq<char>,
    pub columns: Seq<ColumnView>,
    pub row_count: u32,
}

impl View for Batch {
    type V = BatchView;

    open spec fn view(&self) -> BatchView {
        BatchView {
            table_name: self.table_name@,
            columns: column_views(self.columns@),
            row_count: self.row_count,
        }
    }
}

/// Accumulates rows for one table.
pub struct RowBuilder {
    table_name: String,
    columns: Vec<Column>,
    rows: usize,
}

impl View for RowBuilder {
    type V = RowBuilderView;

    closed spec fn view(&self) -> RowBuilderView {
        RowBuilderView {
            table_name: self.table_name@,
            columns: column_views(self.columns@),
            rows: self.rows as nat,
        }
    }
}

impl RowBuilder {
    /// A builder for `table_name` with no column and no row.
    pub fn new(table_name: String) -> (b: RowBuilder)
        ensures
            b@ == RowBuilderView::new(table_name@),
            b@.in_lockstep(),
    {
        let b = RowBuilder { table_name, columns: Vec::new(), rows: 0 };
        assert(b@ =~= RowBuilderView::new(table_name@));
        b
    }

    /// Declares a column.
    ///
    /// Fails with `InvalidColumnDef` when `data_type` or `semantic_type` is
    /// not a code of the protocol, and changes nothing then. Names need not be
    /// distinct.
    pub fn add_col(&mut self, name: String, data_type: i32, semantic_type: i32) -> (r: Result<(), Error>)
        ensures
            final(self)@ == old(self)@.declared(
                ColumnDecl { name: name@, data_type: data_type, semantic_type: semantic_type },
            ),
            RowBuilderView::accepts_column(data_type, semantic_type) ==> r is Ok && final(self)@
                == old(self)@.with_column(name@, data_type, semantic_type),
            !RowBuilderView::accepts_column(data_type, semantic_type) ==> r == Err::<(), Error>(
                Error::InvalidColumnDef { name: name, data_type: data_type, semantic_type: semantic_type },
            ) && final(self)@ == old(self)@,
            old(self)@.in_lockstep() && old(self)@.rows == 0 ==> final(self)@.in_lockstep(),
    {
        if !greptimedb_ingester::api::v1::ColumnDataType::is_valid(data_type) {
            return Err(Error::InvalidColumnDef { name, data_type, semantic_type });
        }
        if !greptimedb_ingester::api::v1::SemanticType::is_valid(semantic_type) {
            return Err(Error::InvalidColumnDef { name, data_type, semantic_type });
        }
        let ghost text = name@;
        self.columns.push(
            Column { column_name: name, semantic_type, datatype: data_type, values: Values::new() },
        );
        assert(self@ =~= old(self)@.with_column(text, data_type, semantic_type));
        Ok(())
    }

    /// Appends one row, a cell for each column in the order of declaration.
    ///
    /// A row whose length is not the number of columns fails with
    /// `SchemaMismatch` and changes nothing. Otherwise the cells are appended
    /// one by one; the first that cannot be read ends the call with its
    /// error, the cells before it stay appended and the row is not counted.
    /// A builder on which this has happened holds columns of unequal length
    /// and should be dropped.
    ///
    /// The count of rows is a `usize`: a row that is going to be accepted
    /// needs room for one more. A row that is refused needs none.
    pub fn add_row(&mut self, values: &[Value]) -> (r: Result<(), Error>)
        requires
            old(self)@.row_outcome(value_views(values@)) is Ok ==> old(self)@.rows < usize::MAX,
        ensures
            // what is returned, and what becomes of the builder
            r == old(self)@.row_outcome(value_views(values@)),
            final(self)@ == old(self)@.after_row(value_views(values@)),
            // a row of the wrong length
            values@.len() != old(self)@.columns.len() ==> final(self)@ == old(self)@ && r == Err::<(), Error>(
                Error::SchemaMismatch {
                    value_len: values@.len() as usize,
                    schema_len: old(self)@.columns.len() as usize,
                },
            ),
            // a row that is accepted
            r is Ok <==> values@.len() == old(self)@.columns.len() && forall|i: int|
                0 <= i < old(self)@.columns.len() ==> (#[trigger] old(self)@.columns[i]).appended(
                    value_views(values@)[i],
                ) is Ok,
            r is Ok ==> forall|i: int|
                0 <= i < old(self)@.columns.len() ==> #[trigger] final(self)@.columns[i] == old(
                    self,
                )@.columns[i].appended(value_views(values@)[i])->Ok_0,
            // where a row stops: at the first cell that cannot be read
            0 <= old(self)@.rejected_at(value_views(values@)) <= old(self)@.columns.len(),
            forall|i: int|
                0 <= i < old(self)@.rejected_at(value_views(values@)) ==> (#[trigger] old(
                    self,
                )@.columns[i]).appended(value_views(values@)[i]) is Ok,
            old(self)@.rejected_at(value_views(values@)) < old(self)@.columns.len() ==> old(
                self,
            )@.columns[old(self)@.rejected_at(value_views(values@))].appended(
                value_views(values@)[old(self)@.rejected_at(value_views(values@))],
            ) is Err,
            // the count of rows, and what never changes
            r is Ok ==> final(self)@.rows == old(self)@.rows + 1,
            r is Err ==> final(self)@.rows == old(self)@.rows,
            final(self)@.columns.len() == old(self)@.columns.len(),
            final(self)@.table_name == old(self)@.table_name,
            // columns of equal length stay so, unless the row stops after its first cell
            old(self)@.in_lockstep() && !old(self)@.broken_by(value_views(values@))
                ==> final(self)@.in_lockstep(),
    {
        let n = values.len();
        proof {
            lemma_first_rejected(self@.columns, value_views(values@), 0);
        }
        if self.columns.len() != n {
            return Err(Error::SchemaMismatch { value_len: n, schema_len: self.columns.len() });
        }
        let ghost before = column_views(self.columns@);
        let ghost cells = value_views(values@);
        let mut i: usize = 0;
        while i < n
            invariant
                i <= n,
                n == values@.len(),
                n == self.columns@.len(),
                n == before.len(),
                cells == value_views(values@),
                before == old(self)@.columns,
                self.table_name == old(self).table_name,
                self.rows == old(self).rows,
                forall|j: int| 0 <= j < i ==> (#[trigger] before[j]).appended(cells[j]) is Ok,
                forall|j: int|
                    0 <= j < i ==> (#[trigger] self.columns@[j])@ == before[j].appended(cells[j])->Ok_0,
                forall|j: int| i <= j < n ==> (#[trigger] self.columns@[j])@ == before[j],
            decreases n - i,
        {
            match self.columns[i].push(&values[i]) {
                Ok(()) => {},
                Err(e) => {
                    proof {
                        lemma_first_rejected_is(before, cells, 0, i as int);
                        assert(self@.columns =~= old(self)@.after_row(cells).columns);
                        assert(before[i as int].appended(cells[i as int]) is Err);
                        if i == 0 {
                            lemma_row_keeps_lockstep(old(self)@, cells);
                        }
                    }
                    return Err(e);
                },
            }
            i += 1;
        }
        proof {
            lemma_first_rejected_is(before, cells, 0, n as int);
            assert(old(self)@.row_outcome(cells) is Ok);
        }
        self.rows += 1;
        assert(self@.columns =~= old(self)@.after_row(cells).columns);
        proof {
            lemma_row_keeps_lockstep(old(self)@, cells);
        }
        Ok(())
    }

    /// Takes the accumulated rows out as a batch.
    ///
    /// The builder keeps its table name and its columns, each without values,
    /// and counts no row, so that the next rows go into a batch of their own.
    pub fn drain_into_batch(&mut self) -> (batch: Batch)
        ensures
            batch@ == old(self)@.batch(),
            final(self)@ == old(self)@.drained(),
            final(self)@.in_lockstep(),
    {
        let ghost before = column_views(self.columns@);
        let n = self.columns.len();
        let mut columns: Vec<Column> = Vec::new();
        let mut i: usize = 0;
        while i < n
            invariant
                i <= n,
                n == self.columns@.len(),
                n == before.len(),
                columns@.len() == i,
                before == old(self)@.columns,
                self.table_name == old(self).table_name,
                self.rows == old(self).rows,
                forall|j: int| 0 <= j < i ==> (#[trigger] columns@[j])@ == before[j],
                forall|j: int| 0 <= j < i ==> (#[trigger] self.columns@[j])@ == before[j].emptied(),
                forall|j: int| i <= j < n ==> (#[trigger] self.columns@[j])@ == before[j],
            decreases n - i,
        {
            let mut values = Values::new();
            core::mem::swap(&mut self.columns[i].values, &mut values);
            columns.push(
                Column {
                    column_name: self.columns[i].column_name.clone(),
                    semantic_type: self.columns[i].semantic_type,
                    datatype: self.columns[i].datatype,
                    values,
                },
            );
            i += 1;
        }
        let row_count = wire_row_count(self.rows);
        self.rows = 0;
        let batch = Batch { table_name: self.table_name.clone(), columns, row_count };
        assert(batch@.columns =~= before);
        assert(self@.columns =~= old(self)@.drained().columns);
        proof {
            lemma_drain_twice(old(self)@);
        }
        batch
    }

    /// The name of the table the rows are for.
    pub fn table_name(&self) -> (name: &str)
        ensures
            name@ == self@.table_name,
    {
        self.table_name.as_str()
    }

    /// The number of rows appended since the builder was made or last drained.
    pub fn row_count(&self) -> (n: usize)
        ensures
            n == self@.rows,
    {
        self.rows
    }

    /// The number of columns declared.
    pub fn column_count(&self) -> (n: usize)
        ensures
            n == self@.columns.len(),
    {
        self.columns.len()
    }

    /// The columns declared, in order, with the values appended to each.
    pub fn columns(&self) -> (columns: &Vec<Column>)
        ensures
            column_views(columns@) == self@.columns,
    {
        &self.columns
    }

    /// Whether the cell at `index` of a row of `row_len` cells is read through
    /// its string pointer: it is where the column at `index` takes strings,
    /// unless the row is going to be refused for its length.
    pub fn reads_text(&self, row_len: usize, index: usize) -> (b: bool)
        ensures
            b == self@.reads_text(row_len as nat, index as int),
    {
        row_len == self.columns.len() && index < self.columns.len() && self.columns[index].datatype
            == DataType::String.code()
    }
}

} // verus!

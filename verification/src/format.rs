//! The two shapes of a listing: an aligned table, and one line per record
//! with the cells joined by a slash.

use crate::text::{join, joined};
use tabled::builder::Builder;
use tabled::settings::Style;
use vstd::prelude::*;

verus! {

/// The shape of a listing.
#[derive(Debug, Clone, Copy, PartialEq, Eq, Structural)]
pub enum Shape {
    /// An aligned table under a line of headings.
    Pretty,
    /// One line per record, the cells joined by a slash.
    Terse,
}

/// A column that has a heading.
pub trait TableColumn {
    /// The heading of the column.
    spec fn title(&self) -> Seq<char>;

    /// The heading of the column.
    fn to_title(&self) -> (title: String)
        ensures
            title@ == self.title(),
    ;
}

/// A record that has a cell for every column of kind `C`.
pub trait TableFormattable<C> {
    /// What the record shows in the column.
    spec fn cell(&self, column: &C) -> Seq<char>;

    /// What the record shows in the column.
    fn get_cell_value_by_column(&self, column: &C) -> (value: String)
        ensures
            value@ == self.cell(column),
    ;
}

/// The headings of the columns, in their order.
pub open spec fn titles<C: TableColumn>(columns: Seq<C>) -> Seq<Seq<char>> {
    Seq::new(columns.len(), |j: int| columns[j].title())
}

/// The cells of one record, one for each column, in the columns' order.
pub open spec fn cells<I: TableFormattable<C>, C>(item: I, columns: Seq<C>) -> Seq<Seq<char>> {
    Seq::new(columns.len(), |j: int| item.cell(&columns[j]))
}

/// The cells of all the records, record by record.
pub open spec fn grid<I: TableFormattable<C>, C>(items: Seq<I>, columns: Seq<C>) -> Seq<
    Seq<Seq<char>>,
> {
    Seq::new(items.len(), |i: int| cells(items[i], columns))
}

/// The cells of records that are given with the rule for their cells:
/// `cell(item, column)` is what `item` shows in `column`.
pub open spec fn rows_of<T, C>(
    items: Seq<T>,
    columns: Seq<C>,
    cell: spec_fn(T, C) -> Seq<char>,
) -> Seq<Seq<Seq<char>>> {
    Seq::new(items.len(), |i: int| Seq::new(columns.len(), |j: int| cell(items[i], columns[j])))
}

/// A listing of the given shape: the table under its headings, or the terse
/// lines.
pub open spec fn listing_text(
    shape: Shape,
    titles: Seq<Seq<char>>,
    rows: Seq<Seq<Seq<char>>>,
) -> Seq<char> {
    match shape {
        Shape::Pretty => pretty_text(titles, rows),
        Shape::Terse => terse_text(rows),
    }
}

/// One record in the terse shape: its cells joined by a slash, and a line
/// break behind them.
pub open spec fn terse_line(cells: Seq<Seq<char>>) -> Seq<char> {
    joined(cells, "/"@) + "\n"@
}

/// The terse shape of the rows: their lines one after the other.
pub open spec fn terse_text(rows: Seq<Seq<Seq<char>>>) -> Seq<char>
    decreases rows.len(),
{
    if rows.len() == 0 {
        Seq::<char>::empty()
    } else {
        terse_text(rows.drop_last()) + terse_line(rows.last())
    }
}

/// The text that tabled writes for a table of the records in its blank
/// style.
pub uninterp spec fn blank_table(records: Seq<Seq<Seq<char>>>) -> Seq<char>;

/// The pretty shape: the table of the headings and the rows.
pub open spec fn pretty_text(titles: Seq<Seq<char>>, rows: Seq<Seq<Seq<char>>>) -> Seq<char> {
    blank_table(seq![titles] + rows)
}

/// Has tabled write the records as a table: collects them in a `Builder`,
/// builds the `Table`, gives it `Style::blank()` and takes its text. The
/// text is taken to depend on the records alone; `blank_table` is the name
/// of that text, and nothing more is claimed of it.
#[verifier::external_body]
fn render_blank_table(records: Vec<Vec<String>>) -> (text: String)
    ensures
        text@ == blank_table(records.deep_view()),
{
    let mut table = Builder::from_iter(records).build();
    table.with(Style::blank());
    table.to_string()
}

/// A copy of the columns.
pub fn copy_of<C: Copy>(columns: &Vec<C>) -> (copy: Vec<C>)
    ensures
        copy@ == columns@,
{
    let mut copy: Vec<C> = Vec::new();
    let mut i: usize = 0;
    while i < columns.len()
        invariant
            i <= columns.len(),
            copy@ == columns@.take(i as int),
        decreases columns.len() - i,
    {
        copy.push(columns[i]);
        i = i + 1;
    }
    copy
}

/// The cells of one record.
pub fn row_of<I: TableFormattable<C>, C>(item: &I, columns: &[C]) -> (row: Vec<String>)
    ensures
        row.deep_view() == cells(*item, columns@),
{
    let mut row: Vec<String> = Vec::new();
    let mut j: usize = 0;
    while j < columns.len()
        invariant
            j <= columns.len(),
            row.len() == j,
            forall|k: int| 0 <= k < j ==> (#[trigger] row[k])@ == item.cell(&columns@[k]),
        decreases columns.len() - j,
    {
        let value = item.get_cell_value_by_column(&columns[j]);
        row.push(value);
        j = j + 1;
    }
    row
}

/// The headings of the columns.
pub fn heading_of<C: TableColumn>(columns: &[C]) -> (row: Vec<String>)
    ensures
        row.deep_view() == titles(columns@),
{
    let mut row: Vec<String> = Vec::new();
    let mut j: usize = 0;
    while j < columns.len()
        invariant
            j <= columns.len(),
            row.len() == j,
            forall|k: int| 0 <= k < j ==> (#[trigger] row[k])@ == columns@[k].title(),
        decreases columns.len() - j,
    {
        let title = columns[j].to_title();
        row.push(title);
        j = j + 1;
    }
    row
}

/// Records that can be written in the terse shape.
pub trait TerseFormatter<I: TableFormattable<C>, C> {
    /// The records, in their order.
    spec fn records(&self) -> Seq<I>;

    /// One line per record, the cells of the given columns joined by a slash.
    fn to_terse(&self, columns: &[C]) -> (text: String)
        ensures
            text@ == terse_text(grid(self.records(), columns@)),
    ;
}

impl<I: TableFormattable<C>, C> TerseFormatter<I, C> for Vec<I> {
    open spec fn records(&self) -> Seq<I> {
        self@
    }

    fn to_terse(&self, columns: &[C]) -> (text: String) {
        let mut text = String::new();
        let mut i: usize = 0;
        while i < self.len()
            invariant
                i <= self.len(),
                text@ == terse_text(grid(self@, columns@).take(i as int)),
            decreases self.len() - i,
        {
            proof {
                let next = grid(self@, columns@).take(i as int + 1);
                assert(next.drop_last() =~= grid(self@, columns@).take(i as int));
            }
            let row = row_of(&self[i], columns);
            let line = join(&row, "/");
            text.append(line.as_str());
            text.append("\n");
            i = i + 1;
        }
        proof {
            assert(grid(self@, columns@).take(self.len() as int) =~= grid(self@, columns@));
        }
        text
    }
}

/// Records that can be written as a table.
pub trait PrettyFormatter<I: TableFormattable<C>, C: TableColumn> {
    /// The records, in their order.
    spec fn entries(&self) -> Seq<I>;

    /// A table with the headings of the given columns in its first line and
    /// one line per record below it.
    fn to_pretty(&self, columns: &[C]) -> (text: String)
        ensures
            text@ == pretty_text(titles(columns@), grid(self.entries(), columns@)),
    ;
}

impl<I: TableFormattable<C>, C: TableColumn> PrettyFormatter<I, C> for Vec<I> {
    open spec fn entries(&self) -> Seq<I> {
        self@
    }

    fn to_pretty(&self, columns: &[C]) -> (text: String) {
        let mut records: Vec<Vec<String>> = Vec::new();
        records.push(heading_of(columns));
        let mut i: usize = 0;
        while i < self.len()
            invariant
                i <= self.len(),
                records.deep_view() == seq![titles(columns@)] + grid(self@, columns@).take(
                    i as int,
                ),
            decreases self.len() - i,
        {
            let ghost before = records.deep_view();
            let row = row_of(&self[i], columns);
            records.push(row);
            proof {
                assert(records.deep_view() =~= before.push(cells(self@[i as int], columns@)));
            }
            i = i + 1;
        }
        proof {
            assert(grid(self@, columns@).take(self.len() as int) =~= grid(self@, columns@));
        }
        render_blank_table(records)
    }
}

/// Writes the records in the given shape.
pub fn to_listing<I: TableFormattable<C>, C: TableColumn>(
    items: &Vec<I>,
    columns: &[C],
    shape: Shape,
) -> (text: String)
    ensures
        text@ == listing_text(shape, titles(columns@), grid(items@, columns@)),
{
    match shape {
        Shape::Pretty => items.to_pretty(columns),
        Shape::Terse => items.to_terse(columns),
    }
}

/// A terse listing grows by one line with every record.
pub proof fn lemma_terse_text_push(rows: Seq<Seq<Seq<char>>>, row: Seq<Seq<char>>)
    ensures
        terse_text(rows.push(row)) == terse_text(rows) + terse_line(row),
{
    assert(rows.push(row).drop_last() =~= rows);
}

/// Leaving records out never makes a terse listing longer.
pub proof fn lemma_terse_text_of_fewer<T, C>(
    items: Seq<T>,
    keep: spec_fn(T) -> bool,
    columns: Seq<C>,
    cell: spec_fn(T, C) -> Seq<char>,
)
    ensures
        terse_text(rows_of(items.filter(keep), columns, cell)).len() <= terse_text(
            rows_of(items, columns, cell),
        ).len(),
    decreases items.len(),
{
    reveal(Seq::filter);
    if items.len() > 0 {
        let front = items.drop_last();
        let row = Seq::new(columns.len(), |j: int| cell(items.last(), columns[j]));
        lemma_terse_text_of_fewer(front, keep, columns, cell);
        assert(rows_of(items, columns, cell) =~= rows_of(front, columns, cell).push(row));
        lemma_terse_text_push(rows_of(front, columns, cell), row);
        if keep(items.last()) {
            assert(rows_of(items.filter(keep), columns, cell) =~= rows_of(
                front.filter(keep),
                columns,
                cell,
            ).push(row));
            lemma_terse_text_push(rows_of(front.filter(keep), columns, cell), row);
        }
    }
}

/// In both shapes a record has one cell for each column asked for, in the
/// order asked for, and the table's heading has one title for each.
pub proof fn lemma_cells_follow_columns<I: TableFormattable<C>, C: TableColumn>(
    items: Seq<I>,
    columns: Seq<C>,
)
    ensures
        titles(columns).len() == columns.len(),
        forall|j: int| 0 <= j < columns.len() ==> #[trigger] titles(columns)[j] == columns[j].title(),
        grid(items, columns).len() == items.len(),
        forall|i: int|
            0 <= i < items.len() ==> (#[trigger] grid(items, columns)[i]).len() == columns.len(),
        forall|i: int, j: int|
            0 <= i < items.len() && 0 <= j < columns.len() ==> #[trigger] grid(
                items,
                columns,
            )[i][j] == items[i].cell(&columns[j]),
{
}

} // verus!

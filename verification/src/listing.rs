//! What the engine shows: the table of templates, the commands of one
//! template, notices.

use vstd::prelude::*;
use crate::template::{Template, TemplateView, Timestamp};
use crate::text::{contains, has_substring};

verus! {

/// What a [`Cell`] denotes.
pub enum CellView {
    Text(Seq<char>),
    Size(u64),
    Moment(Timestamp),
}

/// One cell of the table of templates.
#[derive(Debug, PartialEq, Eq)]
pub enum Cell {
    /// Text, shown as it is.
    Text(String),
    /// A number of bytes, shown in a form fit for people.
    Size(u64),
    /// A point in time, shown in local time.
    Moment(Timestamp),
}

impl DeepView for Cell {
    type V = CellView;

    open spec fn deep_view(&self) -> CellView {
        self@
    }
}

impl View for Cell {
    type V = CellView;

    open spec fn view(&self) -> CellView {
        match self {
            Cell::Text(s) => CellView::Text(s@),
            Cell::Size(n) => CellView::Size(*n),
            Cell::Moment(t) => CellView::Moment(*t),
        }
    }
}

/// What a [`Report`] denotes.
pub enum ReportView {
    Table { titles: Seq<Seq<char>>, rows: Seq<Seq<CellView>> },
    Notice(Seq<char>),
    Warning(Seq<char>),
    Tree { heading: Seq<char>, lines: Seq<Seq<char>> },
}

/// Something to be shown to the person at the terminal.
#[derive(Debug, PartialEq, Eq)]
pub enum Report {
    /// A table: its column titles and its rows.
    Table { titles: Vec<String>, rows: Vec<Vec<Cell>> },
    /// A line of information.
    Notice(String),
    /// A line of warning.
    Warning(String),
    /// A heading, and below it the lines of a tree.
    Tree { heading: String, lines: Vec<String> },
}

impl DeepView for Report {
    type V = ReportView;

    open spec fn deep_view(&self) -> ReportView {
        self@
    }
}

impl View for Report {
    type V = ReportView;

    open spec fn view(&self) -> ReportView {
        match self {
            Report::Table { titles, rows } => ReportView::Table {
                titles: titles.deep_view(),
                rows: rows.deep_view(),
            },
            Report::Notice(s) => ReportView::Notice(s@),
            Report::Warning(s) => ReportView::Warning(s@),
            Report::Tree { heading, lines } => ReportView::Tree {
                heading: heading@,
                lines: lines.deep_view(),
            },
        }
    }
}

/// Whether a record is listed under a name filter: under none every record
/// is; under one, those whose name holds it as a substring.
pub open spec fn listed(record: TemplateView, filter: Option<Seq<char>>) -> bool {
    match filter {
        Some(f) => contains(record.name, f),
        None => true,
    }
}

/// The titles of the table's columns.
pub open spec fn table_titles() -> Seq<Seq<char>> {
    seq!["Name"@, "Description"@, "Compressed Size"@, "Created At"@, "Last Used"@]
}

/// The row of one record.
pub open spec fn row_of(record: TemplateView) -> Seq<CellView> {
    seq![
        CellView::Text(record.name),
        CellView::Text(
            match record.description {
                Some(d) => d,
                None => "No description"@,
            },
        ),
        CellView::Size(record.compressed_size),
        CellView::Moment(record.created),
        match record.used {
            Some(t) => CellView::Moment(t),
            None => CellView::Text("Never"@),
        },
    ]
}

/// The rows of the records that are listed under the filter, in their order.
pub open spec fn listed_rows(records: Seq<TemplateView>, filter: Option<Seq<char>>) -> Seq<
    Seq<CellView>,
>
    decreases records.len(),
{
    if records.len() == 0 {
        Seq::empty()
    } else {
        let before = listed_rows(records.drop_last(), filter);
        if listed(records.last(), filter) {
            before.push(row_of(records.last()))
        } else {
            before
        }
    }
}

/// What a listing shows: the table of the listed records, or the notice that
/// there are none.
pub open spec fn listing(records: Seq<TemplateView>, filter: Option<Seq<char>>) -> ReportView {
    let rows = listed_rows(records, filter);
    if rows.len() == 0 {
        ReportView::Notice("No templates found"@)
    } else {
        ReportView::Table { titles: table_titles(), rows }
    }
}

/// Builds the row of one record.
fn make_row(record: &Template) -> (row: Vec<Cell>)
    ensures
        row.deep_view() == row_of(record@),
{
    let mut row: Vec<Cell> = Vec::new();
    row.push(Cell::Text(record.name.clone()));
    match &record.description {
        Some(d) => row.push(Cell::Text(d.clone())),
        None => row.push(Cell::Text("No description".to_owned())),
    }
    row.push(Cell::Size(record.compressed_size));
    row.push(Cell::Moment(record.created));
    match record.used {
        Some(t) => row.push(Cell::Moment(t)),
        None => row.push(Cell::Text("Never".to_owned())),
    }
    assert(row.deep_view() =~= row_of(record@));
    row
}

/// Builds the titles of the table.
fn make_titles() -> (titles: Vec<String>)
    ensures
        titles.deep_view() == table_titles(),
{
    let mut titles: Vec<String> = Vec::new();
    titles.push("Name".to_owned());
    titles.push("Description".to_owned());
    titles.push("Compressed Size".to_owned());
    titles.push("Created At".to_owned());
    titles.push("Last Used".to_owned());
    assert(titles.deep_view() =~= table_titles());
    titles
}

/// Lists the stored records: all of them, or those whose name holds the
/// filter as a substring. Having nothing to list is no error.
pub fn list_templates(records: &Vec<Template>, filter: &Option<String>) -> (report: Report)
    ensures
        report@ == listing(records.deep_view(), filter.deep_view()),
{
    let ghost all = records.deep_view();
    let ghost f = filter.deep_view();
    let mut rows: Vec<Vec<Cell>> = Vec::new();
    let mut i: usize = 0;
    assert(all.take(0) =~= Seq::<TemplateView>::empty());
    assert(rows.deep_view() =~= Seq::<Seq<CellView>>::empty());
    while i < records.len()
        invariant
            i <= records.len(),
            all == records.deep_view(),
            f == filter.deep_view(),
            rows.deep_view() == listed_rows(all.take(i as int), f),
        decreases records.len() - i,
    {
        let record = &records[i];
        let ghost seen = all.take(i + 1);
        assert(seen.drop_last() =~= all.take(i as int));
        assert(seen.last() == record@);
        let keep = match filter {
            Some(name) => has_substring(record.name.as_str(), name.as_str()),
            None => true,
        };
        if keep {
            let ghost before = rows.deep_view();
            rows.push(make_row(record));
            assert(rows.deep_view() =~= before.push(row_of(record@)));
        }
        i += 1;
    }
    assert(all.take(records.len() as int) =~= all);
    if rows.len() == 0 {
        Report::Notice("No templates found".to_owned())
    } else {
        Report::Table { titles: make_titles(), rows }
    }
}

/// The text that lists commands: a heading, then one line for each command.
pub open spec fn commands_text(commands: Seq<Seq<char>>) -> Seq<char>
    decreases commands.len(),
{
    if commands.len() == 0 {
        "Commands:"@
    } else {
        commands_text(commands.drop_last()) + "\n"@ + commands.last()
    }
}

/// Lists the commands of one record, in their stored order.
pub fn list_commands(record: &Template) -> (report: Report)
    ensures
        report@ == ReportView::Notice(commands_text(record@.commands)),
{
    let ghost all = record.commands.deep_view();
    let mut text = "Commands:".to_owned();
    let mut i: usize = 0;
    assert(all.take(0) =~= Seq::<Seq<char>>::empty());
    while i < record.commands.len()
        invariant
            i <= record.commands.len(),
            all == record.commands.deep_view(),
            text@ == commands_text(all.take(i as int)),
        decreases record.commands.len() - i,
    {
        let ghost seen = all.take(i + 1);
        assert(seen.drop_last() =~= all.take(i as int));
        assert(seen.last() == record.commands[i as int]@);
        text.append("\n");
        text.append(record.commands[i].as_str());
        i += 1;
    }
    assert(all.take(record.commands.len() as int) =~= all);
    Report::Notice(text)
}

/// With nothing stored, a listing shows the notice that there is nothing,
/// whatever the filter.
pub proof fn empty_store_lists_nothing(filter: Option<Seq<char>>)
    ensures
        listing(Seq::empty(), filter) == ReportView::Notice("No templates found"@),
{
}

/// Every row of a listing is the row of a stored record that is listed under
/// the filter: under a name filter, of one whose name holds the filter.
pub proof fn listing_shows_only_the_listed(
    records: Seq<TemplateView>,
    filter: Option<Seq<char>>,
    k: int,
)
    requires
        0 <= k < listed_rows(records, filter).len(),
    ensures
        exists|i: int|
            0 <= i < records.len() && listed(#[trigger] records[i], filter) && listed_rows(
                records,
                filter,
            )[k] == row_of(records[i]),
    decreases records.len(),
{
    let rest = records.drop_last();
    let before = listed_rows(rest, filter);
    if k < before.len() {
        listing_shows_only_the_listed(rest, filter, k);
        let i = choose|i: int|
            0 <= i < rest.len() && listed(#[trigger] rest[i], filter) && before[k] == row_of(
                rest[i],
            );
        assert(records[i] == rest[i]);
    } else {
        assert(listed(records[records.len() - 1], filter));
    }
}

/// Every stored record that is listed under the filter has its row in the
/// listing.
pub proof fn listing_shows_all_the_listed(
    records: Seq<TemplateView>,
    filter: Option<Seq<char>>,
    i: int,
)
    requires
        0 <= i < records.len(),
        listed(records[i], filter),
    ensures
        listed_rows(records, filter).contains(row_of(records[i])),
    decreases records.len(),
{
    let rest = records.drop_last();
    let before = listed_rows(rest, filter);
    if i < rest.len() {
        listing_shows_all_the_listed(rest, filter, i);
        assert(rest[i] == records[i]);
        let k = choose|k: int| 0 <= k < before.len() && before[k] == row_of(records[i]);
        assert(listed_rows(records, filter)[k] == row_of(records[i]));
    } else {
        assert(listed_rows(records, filter)[before.len() as int] == row_of(records[i]));
    }
}

} // verus!

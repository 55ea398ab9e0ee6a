//! What a listing shows of each record: the cells of a table row, the fields
//! of a detail view, and the Markdown table that `comfy_table` makes of them.

use crate::resolve::ResolvedDocument;
use crate::text::{decimal, decimal_string, join, joined, texts};
use crate::types::{text_or_empty, Correspondent, DocumentType, Tag};
use vstd::prelude::*;
use vstd::string::*;

verus! {

/// How output is written.
#[derive(Debug, Clone, Copy, PartialEq, Eq)]
pub enum OutputFormat {
    /// A Markdown table.
    Markdown,
    /// JSON.
    Json,
}

impl Default for OutputFormat {
    fn default() -> (format: OutputFormat)
        ensures
            format == OutputFormat::Markdown,
    {
        OutputFormat::Markdown
    }
}

/// The texts of a list of string literals.
pub open spec fn literals(strings: Seq<&'static str>) -> Seq<Seq<char>> {
    strings.map_values(|s: &'static str| s@)
}

/// The texts of a list of labelled fields.
pub open spec fn labelled(fields: Seq<(&'static str, String)>) -> Seq<(Seq<char>, Seq<char>)> {
    fields.map_values(|field: (&'static str, String)| (field.0@, field.1@))
}

/// A record that is shown as one row of a table.
pub trait Tabular {
    /// The column titles.
    spec fn titles() -> Seq<Seq<char>>;

    /// Whether `cells` is the row of this record.
    spec fn is_row(&self, cells: Seq<Seq<char>>) -> bool;

    /// The column titles.
    fn headers() -> (titles: &'static [&'static str])
        ensures
            literals(titles@) == Self::titles(),
    ;

    /// The cells of this record, one for each column.
    fn row(&self) -> (cells: Vec<String>)
        ensures
            self.is_row(texts(cells@)),
    ;
}

/// A record that is shown field by field.
pub trait DetailView {
    /// Whether `fields` are the labelled fields of this record.
    spec fn are_fields(&self, fields: Seq<(Seq<char>, Seq<char>)>) -> bool;

    /// The fields of this record, each with its label.
    fn fields(&self) -> (fields: Vec<(&'static str, String)>)
        ensures
            self.are_fields(labelled(fields@)),
    ;
}

/// The decimal numeral of a count, empty where there is none.
pub open spec fn count_text(count: Option<u64>) -> Seq<char> {
    match count {
        Some(n) => decimal(n as nat),
        None => Seq::empty(),
    }
}

/// `text`, or `default` where there is none.
pub open spec fn text_or(text: Option<Seq<char>>, default: Seq<char>) -> Seq<char> {
    match text {
        Some(text) => text,
        None => default,
    }
}

/// Whether `text` shows `value`: what the `Display` impl of the value
/// writes, or `default` where there is no value.
pub open spec fn shows<T: std::fmt::Display>(
    text: Seq<char>,
    value: Option<T>,
    default: Seq<char>,
) -> bool {
    match value {
        Some(value) => exists|written: String| #[trigger]
            to_string_from_display_ensures::<T>(&value, written) && written@ == text,
        None => text == default,
    }
}

fn count_string(count: Option<u64>) -> (text: String)
    ensures
        text@ == count_text(count),
{
    match count {
        Some(n) => decimal_string(n),
        None => String::new(),
    }
}

fn text_or_default(text: &Option<String>, default: &str) -> (r: String)
    ensures
        r@ == text_or(text.deep_view(), default@),
{
    match text {
        Some(text) => text.clone(),
        None => String::from_str(default),
    }
}

/// Renders `value` through its `Display` impl, or returns `default` where
/// there is no value.
pub fn display_opt<T: std::fmt::Display>(value: Option<&T>, default: &str) -> (text: String)
    ensures
        match value {
            Some(value) => shows(text@, Some(*value), default@),
            None => text@ == default@,
        },
{
    match value {
        Some(value) => {
            let written = value.to_string();
            proof {
                let shown: Option<T> = Some(*value);
                assert(shown matches Some(v) && to_string_from_display_ensures::<T>(&v, written));
            }
            written
        },
        None => String::from_str(default),
    }
}

/// A table of the `comfy_table` crate, carried as an opaque value.
#[verifier::external_type_specification]
#[verifier::external_body]
pub struct ExTable(comfy_table::Table);

/// The titles in the header of a table; empty where it has no header.
pub uninterp spec fn table_header(table: comfy_table::Table) -> Seq<Seq<char>>;

/// The rows of a table in the order they were added, each with the content
/// of its cells.
pub uninterp spec fn table_rows(table: comfy_table::Table) -> Seq<Seq<Seq<char>>>;

/// Calls `comfy_table::Table::new`, which makes a table without header and
/// without rows.
#[verifier::external_body]
fn empty_table() -> (table: comfy_table::Table)
    ensures
        table_header(table) == Seq::<Seq<char>>::empty(),
        table_rows(table) == Seq::<Seq<Seq<char>>>::empty(),
{
    comfy_table::Table::new()
}

/// Calls `comfy_table::Table::load_preset` with the crate's Markdown
/// preset, which sets the characters that the table is drawn with and
/// nothing that the table holds.
#[verifier::external_body]
fn use_markdown_preset(table: &mut comfy_table::Table)
    ensures
        table_header(*final(table)) == table_header(*old(table)),
        table_rows(*final(table)) == table_rows(*old(table)),
{
    table.load_preset(comfy_table::presets::ASCII_MARKDOWN);
}

/// Calls `comfy_table::Table::set_content_arrangement` with the dynamic
/// arrangement, which changes how wide the columns are drawn and nothing
/// that the table holds.
#[verifier::external_body]
fn arrange_dynamically(table: &mut comfy_table::Table)
    ensures
        table_header(*final(table)) == table_header(*old(table)),
        table_rows(*final(table)) == table_rows(*old(table)),
{
    table.set_content_arrangement(comfy_table::ContentArrangement::Dynamic);
}

/// Calls `comfy_table::Table::set_header`, which stores the titles as the
/// header and leaves the rows alone.
#[verifier::external_body]
fn set_header(table: &mut comfy_table::Table, headers: &[&str])
    ensures
        table_header(*final(table)) == literals(headers@),
        table_rows(*final(table)) == table_rows(*old(table)),
{
    table.set_header(headers.iter());
}

/// An empty Markdown table with the given column titles.
fn new_markdown_table(headers: &[&str]) -> (table: comfy_table::Table)
    ensures
        table_header(table) == literals(headers@),
        table_rows(table) == Seq::<Seq<Seq<char>>>::empty(),
{
    let mut table = empty_table();
    use_markdown_preset(&mut table);
    arrange_dynamically(&mut table);
    set_header(&mut table, headers);
    table
}

/// Calls `comfy_table::Table::add_row`, which appends the row to the rows of
/// the table and leaves the header alone.
#[verifier::external_body]
fn add_row(table: &mut comfy_table::Table, row: Vec<String>)
    ensures
        table_header(*final(table)) == table_header(*old(table)),
        table_rows(*final(table)) == table_rows(*old(table)).push(texts(row@)),
{
    table.add_row(row);
}

/// Whether `text` is what `comfy_table` writes for a Markdown table with
/// the header `titles` and the rows `rows`. How wide the columns are drawn
/// is for `comfy_table` to say, which asks the terminal.
pub open spec fn draws(text: Seq<char>, titles: Seq<Seq<char>>, rows: Seq<Seq<Seq<char>>>)
    -> bool {
    exists|table: comfy_table::Table, written: String| #[trigger]
        to_string_from_display_ensures::<comfy_table::Table>(&table, written) && written@ == text
            && table_header(table) == titles && table_rows(table) == rows
}

/// Whether `rows` are the rows of `items`, in order.
pub open spec fn are_rows<T: Tabular>(items: Seq<T>, rows: Seq<Seq<Seq<char>>>) -> bool {
    &&& rows.len() == items.len()
    &&& forall|i: int| 0 <= i < items.len() ==> (#[trigger] items[i]).is_row(rows[i])
}

/// The two cells that show a labelled field.
pub open spec fn field_rows(fields: Seq<(Seq<char>, Seq<char>)>) -> Seq<Seq<Seq<char>>> {
    fields.map_values(|field: (Seq<char>, Seq<char>)| seq![field.0, field.1])
}

/// The header of a detail view.
pub open spec fn detail_titles() -> Seq<Seq<char>> {
    seq!["Field"@, "Value"@]
}

/// Whether `text` is the Markdown table of `items`: a header of the column
/// titles, and one row for each item, in order.
pub open spec fn lists<T: Tabular>(text: Seq<char>, items: Seq<T>) -> bool {
    exists|rows: Seq<Seq<Seq<char>>>| #[trigger]
        are_rows(items, rows) && draws(text, T::titles(), rows)
}

/// Whether `text` is the Markdown table of the fields of `item`: the header
/// `Field` and `Value`, and one row for each field, in order.
pub open spec fn details<T: DetailView>(text: Seq<char>, item: &T) -> bool {
    exists|fields: Seq<(Seq<char>, Seq<char>)>| #[trigger]
        item.are_fields(fields) && draws(text, detail_titles(), field_rows(fields))
}

/// Draws the Markdown table of `items`.
pub fn markdown_list<T: Tabular>(items: &[T]) -> (text: String)
    ensures
        lists(text@, items@),
{
    let mut table = new_markdown_table(T::headers());
    let mut i: usize = 0;
    while i < items.len()
        invariant
            i <= items.len(),
            table_header(table) == T::titles(),
            are_rows(items@.take(i as int), table_rows(table)),
        decreases items.len() - i,
    {
        let ghost before = table_rows(table);
        add_row(&mut table, items[i].row());
        proof {
            let now = table_rows(table);
            assert forall|k: int| 0 <= k < i + 1 implies (#[trigger] items@.take(i + 1)[k]).is_row(
                now[k],
            ) by {
                if k < i {
                    assert(items@.take(i as int)[k].is_row(before[k]));
                }
            }
        }
        i += 1;
    }
    assert(items@.take(i as int) =~= items@);
    let text = table.to_string();
    assert(draws(text@, T::titles(), table_rows(table)));
    assert(are_rows(items@, table_rows(table)));
    text
}

/// Draws the Markdown table of the fields of `item`.
pub fn markdown_detail<T: DetailView>(item: &T) -> (text: String)
    ensures
        details(text@, item),
{
    let titles: &'static [&'static str] = &["Field", "Value"];
    assert(literals(titles@) =~= detail_titles());
    let mut table = new_markdown_table(titles);
    let fields = item.fields();
    let mut i: usize = 0;
    while i < fields.len()
        invariant
            i <= fields.len(),
            table_header(table) == detail_titles(),
            table_rows(table) == field_rows(labelled(fields@).take(i as int)),
        decreases fields.len() - i,
    {
        let row = vec![String::from_str(fields[i].0), fields[i].1.clone()];
        assert(texts(row@) =~= seq![fields@[i as int].0@, fields@[i as int].1@]);
        add_row(&mut table, row);
        assert(table_rows(table) =~= field_rows(labelled(fields@).take(i + 1)));
        i += 1;
    }
    assert(labelled(fields@).take(i as int) =~= labelled(fields@));
    let text = table.to_string();
    assert(draws(text@, detail_titles(), field_rows(labelled(fields@))));
    assert(item.are_fields(labelled(fields@)));
    text
}

impl OutputFormat {
    /// Writes `items` in this format: as a Markdown table, or as the JSON
    /// that `to_json` makes, which is called for no other format.
    pub fn format_list<T: Tabular, E, F: FnOnce() -> Result<String, E>>(
        self,
        items: &[T],
        to_json: F,
    ) -> (r: Result<String, E>)
        requires
            call_requires(to_json, ()),
        ensures
            match self {
                OutputFormat::Json => call_ensures(to_json, (), r),
                OutputFormat::Markdown => r matches Ok(text) && lists(text@, items@),
            },
    {
        match self {
            OutputFormat::Json => to_json(),
            OutputFormat::Markdown => Ok(markdown_list(items)),
        }
    }

    /// Writes `item` in this format: field by field as a Markdown table, or
    /// as the JSON that `to_json` makes, which is called for no other format.
    pub fn format_detail<T: DetailView, E, F: FnOnce() -> Result<String, E>>(
        self,
        item: &T,
        to_json: F,
    ) -> (r: Result<String, E>)
        requires
            call_requires(to_json, ()),
        ensures
            match self {
                OutputFormat::Json => call_ensures(to_json, (), r),
                OutputFormat::Markdown => r matches Ok(text) && details(text@, item),
            },
    {
        match self {
            OutputFormat::Json => to_json(),
            OutputFormat::Markdown => Ok(markdown_detail(item)),
        }
    }
}

impl Tabular for ResolvedDocument {
    open spec fn titles() -> Seq<Seq<char>> {
        seq!["ID"@, "Title"@, "Correspondent"@, "Type"@, "Created"@, "Tags"@]
    }

    open spec fn is_row(&self, cells: Seq<Seq<char>>) -> bool {
        &&& cells.len() == 6
        &&& cells[0] == decimal(self.id as nat)
        &&& cells[1] == self.title@
        &&& cells[2] == text_or_empty(self@.correspondent_name)
        &&& cells[3] == text_or_empty(self@.document_type_name)
        &&& shows(cells[4], self.created, Seq::empty())
        &&& cells[5] == joined(self@.tag_names, ", "@)
    }

    fn headers() -> (titles: &'static [&'static str]) {
        let titles: &'static [&'static str] = &[
            "ID",
            "Title",
            "Correspondent",
            "Type",
            "Created",
            "Tags",
        ];
        assert(literals(titles@) =~= Self::titles());
        titles
    }

    fn row(&self) -> (cells: Vec<String>) {
        proof {
            reveal_strlit("");
            assert(""@ =~= Seq::<char>::empty());
        }
        vec![
            decimal_string(self.id),
            self.title.clone(),
            text_or_default(&self.correspondent_name, ""),
            text_or_default(&self.document_type_name, ""),
            display_opt(self.created.as_ref(), ""),
            join(&self.tag_names, ", "),
        ]
    }
}

/// The fields that every resolved document shows, in order, but for the
/// two dates.
pub open spec fn shows_document(document: &ResolvedDocument, fields: Seq<(Seq<char>, Seq<char>)>)
    -> bool {
    &&& fields.len() >= 7
    &&& fields[0] == ("ID"@, decimal(document.id as nat))
    &&& fields[1] == ("Title"@, document.title@)
    &&& fields[2].0 == "Created"@
    &&& shows(fields[2].1, document.created, "N/A"@)
    &&& fields[3].0 == "Added"@
    &&& shows(fields[3].1, document.added, "N/A"@)
    &&& fields[4] == ("Correspondent"@, text_or(document@.correspondent_name, "N/A"@))
    &&& fields[5] == ("Document Type"@, text_or(document@.document_type_name, "N/A"@))
    &&& fields[6] == ("Tags"@, joined(document@.tag_names, ", "@))
}

/// The fields that a resolved document shows only where it has them: the
/// original file name, then the archive serial number.
pub open spec fn extra_fields(document: &ResolvedDocument) -> Seq<(Seq<char>, Seq<char>)> {
    let file = match document@.original_file_name {
        Some(name) => seq![("Original File"@, name)],
        None => Seq::empty(),
    };
    let serial = match document.archive_serial_number {
        Some(number) => seq![("ASN"@, decimal(number as nat))],
        None => Seq::empty(),
    };
    file + serial
}

impl DetailView for ResolvedDocument {
    open spec fn are_fields(&self, fields: Seq<(Seq<char>, Seq<char>)>) -> bool {
        &&& shows_document(self, fields)
        &&& fields.skip(7) == extra_fields(self)
    }

    fn fields(&self) -> (fields: Vec<(&'static str, String)>) {
        let mut fields = vec![
            ("ID", decimal_string(self.id)),
            ("Title", self.title.clone()),
            ("Created", display_opt(self.created.as_ref(), "N/A")),
            ("Added", display_opt(self.added.as_ref(), "N/A")),
            ("Correspondent", text_or_default(&self.correspondent_name, "N/A")),
            ("Document Type", text_or_default(&self.document_type_name, "N/A")),
            ("Tags", join(&self.tag_names, ", ")),
        ];
        let ghost fixed = labelled(fields@);
        assert(shows_document(self, fixed));
        assert(fixed.skip(7) =~= Seq::empty());
        if let Some(name) = &self.original_file_name {
            fields.push(("Original File", name.clone()));
        }
        let ghost with_file = labelled(fields@);
        assert(shows_document(self, with_file)) by {
            assert forall|k: int| 0 <= k < 7 implies with_file[k] == fixed[k] by {}
        }
        if let Some(number) = self.archive_serial_number {
            fields.push(("ASN", decimal_string(number)));
        }
        proof {
            let all = labelled(fields@);
            assert forall|k: int| 0 <= k < 7 implies all[k] == fixed[k] by {}
            assert(all.skip(7) =~= extra_fields(self));
        }
        fields
    }
}

impl Tabular for Tag {
    open spec fn titles() -> Seq<Seq<char>> {
        seq!["ID"@, "Name"@, "Color"@, "Documents"@]
    }

    open spec fn is_row(&self, cells: Seq<Seq<char>>) -> bool {
        cells == seq![
            decimal(self.id as nat),
            self.name@,
            text_or_empty(self.color.deep_view()),
            count_text(self.document_count),
        ]
    }

    fn headers() -> (titles: &'static [&'static str]) {
        let titles: &'static [&'static str] = &["ID", "Name", "Color", "Documents"];
        assert(literals(titles@) =~= Self::titles());
        titles
    }

    fn row(&self) -> (cells: Vec<String>) {
        let cells = vec![
            decimal_string(self.id),
            self.name.clone(),
            text_or_default(&self.color, ""),
            count_string(self.document_count),
        ];
        proof {
            reveal_strlit("");
            assert(""@ =~= Seq::<char>::empty());
            assert(texts(cells@) =~= seq![
                decimal(self.id as nat),
                self.name@,
                text_or_empty(self.color.deep_view()),
                count_text(self.document_count),
            ]);
        }
        cells
    }
}

impl Tabular for Correspondent {
    open spec fn titles() -> Seq<Seq<char>> {
        seq!["ID"@, "Name"@, "Documents"@]
    }

    open spec fn is_row(&self, cells: Seq<Seq<char>>) -> bool {
        cells == seq![decimal(self.id as nat), self.name@, count_text(self.document_count)]
    }

    fn headers() -> (titles: &'static [&'static str]) {
        let titles: &'static [&'static str] = &["ID", "Name", "Documents"];
        assert(literals(titles@) =~= Self::titles());
        titles
    }

    fn row(&self) -> (cells: Vec<String>) {
        let cells = vec![
            decimal_string(self.id),
            self.name.clone(),
            count_string(self.document_count),
        ];
        assert(texts(cells@) =~= seq![
            decimal(self.id as nat),
            self.name@,
            count_text(self.document_count),
        ]);
        cells
    }
}

impl Tabular for DocumentType {
    open spec fn titles() -> Seq<Seq<char>> {
        seq!["ID"@, "Name"@, "Documents"@]
    }

    open spec fn is_row(&self, cells: Seq<Seq<char>>) -> bool {
        cells == seq![decimal(self.id as nat), self.name@, count_text(self.document_count)]
    }

    fn headers() -> (titles: &'static [&'static str]) {
        let titles: &'static [&'static str] = &["ID", "Name", "Documents"];
        assert(literals(titles@) =~= Self::titles());
        titles
    }

    fn row(&self) -> (cells: Vec<String>) {
        let cells = vec![
            decimal_string(self.id),
            self.name.clone(),
            count_string(self.document_count),
        ];
        assert(texts(cells@) =~= seq![
            decimal(self.id as nat),
            self.name@,
            count_text(self.document_count),
        ]);
        cells
    }
}

} // verus!

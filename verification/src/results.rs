//! A finished scan as the window keeps it, and the rows of the result table.
use vstd::prelude::*;
use vstd::string::*;
use crate::text::{all_digits, decimal_digits, decimal_string, digits_value, join_seqs, join_strings, law_decimal_digits_value, string_views};
use crate::port::{port_from_text, PortParseError, law_port_text_round_trip};

verus! {

/// The answers one port of one host gave.
#[derive(Debug)]
pub struct PortEntry {
    /// The host, as written in the table.
    pub target: String,
    pub port: u16,
    /// The status of each answer, as written in the table.
    pub statuses: Vec<String>,
}

pub struct PortEntryView {
    pub target: Seq<char>,
    pub port: u16,
    pub statuses: Seq<Seq<char>>,
}

impl View for PortEntry {
    type V = PortEntryView;

    open spec fn view(&self) -> PortEntryView {
        PortEntryView {
            target: self.target@,
            port: self.port,
            statuses: string_views(self.statuses@),
        }
    }
}

/// A finished scan: the label of its entry in the history (its start time)
/// and its port entries, in the order the table lists them.
#[derive(Debug)]
pub struct ScanRecord {
    pub label: String,
    pub entries: Vec<PortEntry>,
}

pub struct ScanRecordView {
    pub label: Seq<char>,
    pub entries: Seq<PortEntryView>,
}

impl View for ScanRecord {
    type V = ScanRecordView;

    open spec fn view(&self) -> ScanRecordView {
        ScanRecordView {
            label: self.label@,
            entries: self.entries@.map_values(|e: PortEntry| e@),
        }
    }
}

/// One row of the result table, every cell as text.
#[derive(Debug)]
pub struct TableRow {
    pub id: String,
    pub target: String,
    pub port: String,
    pub status: String,
}

pub struct TableRowView {
    pub id: Seq<char>,
    pub target: Seq<char>,
    pub port: Seq<char>,
    pub status: Seq<char>,
}

impl View for TableRow {
    type V = TableRowView;

    open spec fn view(&self) -> TableRowView {
        TableRowView { id: self.id@, target: self.target@, port: self.port@, status: self.status@ }
    }
}

/// The row for the entry at position `i`: numbered from 1, the host, the port
/// in decimal, and the statuses joined with `|`.
pub open spec fn table_row(i: int, e: PortEntryView) -> TableRowView {
    TableRowView {
        id: decimal_digits((i + 1) as nat),
        target: e.target,
        port: decimal_digits(e.port as nat),
        status: join_seqs(e.statuses, "|"@),
    }
}

/// The cells of a row say what they should: the id is the decimal notation
/// of the position counted from 1, the port cell is the decimal notation of
/// the port and reads back as that very port, the target is the entry's host
/// and the status cell joins the statuses with `|`.
pub proof fn law_row_cells(i: int, e: PortEntryView)
    requires
        0 <= i,
    ensures
        all_digits(table_row(i, e).id) && digits_value(table_row(i, e).id) == i + 1,
        all_digits(table_row(i, e).port) && digits_value(table_row(i, e).port) == e.port as int,
        port_from_text(table_row(i, e).port) == Ok::<u16, PortParseError>(e.port),
        table_row(i, e).target == e.target,
        table_row(i, e).status == join_seqs(e.statuses, "|"@),
{
    law_decimal_digits_value((i + 1) as nat);
    law_decimal_digits_value(e.port as nat);
    law_port_text_round_trip(e.port);
}

impl PortEntry {
    /// The table row of this entry when it stands at position `index`.
    pub fn table_row(&self, index: usize) -> (r: TableRow)
        requires
            index < usize::MAX,
        ensures
            r@ == table_row(index as int, self@),
            all_digits(r@.id) && digits_value(r@.id) == index + 1,
            all_digits(r@.port) && digits_value(r@.port) == self.port,
            r@.target == self.target@,
    {
        proof {
            reveal_strlit("|");
            law_row_cells(index as int, self@);
        }
        TableRow {
            id: decimal_string((index + 1) as u64),
            target: self.target.clone(),
            port: decimal_string(self.port as u64),
            status: join_strings(&self.statuses, "|"),
        }
    }
}

impl ScanRecord {
    /// The rows of the result table, one per entry and in the same order.
    pub fn table_rows(&self) -> (rows: Vec<TableRow>)
        ensures
            rows@.len() == self@.entries.len(),
            forall|i: int| 0 <= i < rows@.len() ==> #[trigger] rows@[i]@ == table_row(i, self@.entries[i]),
    {
        let mut rows: Vec<TableRow> = Vec::new();
        let mut i: usize = 0;
        while i < self.entries.len()
            invariant
                i <= self.entries.len(),
                rows@.len() == i,
                forall|j: int| 0 <= j < i ==> #[trigger] rows@[j]@ == table_row(j, self@.entries[j]),
            decreases self.entries.len() - i,
        {
            rows.push(self.entries[i].table_row(i));
            i = i + 1;
        }
        rows
    }
}

} // verus!

//! The report itself: a header line per record, its return data and logs in raw or
//! decoded form, the table, and the summary that closes every report but the dump.

use vstd::prelude::*;
use vstd::string::*;
use vstd::utf8::*;
use comfy_table::{Cell, Table};
use crate::payload::{
    decode_log_entry, decode_revert, log_entry_line, pick_text_connector, revert_message,
    text_connector, DecodeError,
};
use crate::record::{records, Record, ReportKind, TestResult, TestStatus};
use crate::style::{Line, Tint};
use crate::table::{
    add_row, bold_cell, cell_texts, frame_table, new_cell, new_table, set_header, table_header,
    table_rows, tint_cell,
};
use crate::text::{decimal, decimal_string, padded, push_padded};

verus! {

/// The width to which a name is padded in a header line.
pub const NAME_WIDTH: usize = 15;

/// The width to which the gas is padded in a header line.
pub const GAS_WIDTH: usize = 20;

/// The width of the table, in columns of the terminal.
pub const TABLE_WIDTH: u16 = 120;

/// The views of `lines`, in order.
pub open spec fn lines_of(lines: Seq<Line>) -> Seq<Seq<(Seq<char>, Tint)>> {
    lines.map_values(|l: Line| l@)
}

/// The number of records that passed.
pub open spec fn passed_count(rs: Seq<Record>) -> nat
    decreases rs.len(),
{
    if rs.len() == 0 {
        0
    } else {
        passed_count(rs.drop_last()) + if rs.last().status == TestStatus::Success {
            1nat
        } else {
            0nat
        }
    }
}

/// Counts the results whose status is `Success`.
pub fn count_passed(results: &Vec<TestResult>) -> (n: usize)
    ensures
        n == passed_count(records(results@)),
        n <= results.len(),
{
    let mut n: usize = 0;
    let mut i: usize = 0;
    while i < results.len()
        invariant
            i <= results.len(),
            n <= i,
            n == passed_count(records(results@).take(i as int)),
        decreases results.len() - i,
    {
        proof {
            assert(records(results@).take(i + 1).drop_last() =~= records(results@).take(i as int));
        }
        match results[i].status {
            TestStatus::Success => {
                n += 1;
            },
            _ => {},
        }
        i += 1;
    }
    assert(records(results@).take(results.len() as int) =~= records(results@));
    n
}

/// The share of `passed` in `total` as a whole percentage, rounded down; `None` where
/// there is no record at all.
pub fn percent_passed(passed: usize, total: usize) -> (p: Option<u64>)
    requires
        passed <= total,
    ensures
        match p {
            None => total == 0,
            Some(v) => total > 0 && v == passed * 100 / (total as int) && v <= 100,
        },
{
    if total == 0 {
        None
    } else {
        let scaled: u128 = (passed as u128) * 100;
        let p: u128 = scaled / (total as u128);
        assert(p <= 100) by (nonlinear_arith)
            requires
                p == (passed * 100) / (total as int),
                0 <= passed <= total,
                total > 0,
        ;
        Some(p as u64)
    }
}

/// The line that closes a report: how many tests passed and failed, the percentage
/// that passed, and the time it took. With no record at all there is no percentage.
pub open spec fn summary_line(passed: nat, total: nat, elapsed: Seq<char>) -> Seq<
    (Seq<char>, Tint),
> {
    if total == 0 {
        seq![("\u{279c} 0 tests ran. \u{23f1} : "@, Tint::Plain), (elapsed, Tint::Magenta)]
    } else {
        seq![
            ("\u{279c} "@, Tint::Plain),
            (decimal(passed), Tint::Green),
            (" tests passed, "@, Tint::Plain),
            (decimal((total - passed) as nat), Tint::Red),
            (" tests failed ("@, Tint::Plain),
            (decimal(passed * 100 / total), Tint::Yellow),
            ("%). \u{23f1} : "@, Tint::Plain),
            (elapsed, Tint::Magenta),
        ]
    }
}

/// The summary of `results`, with the elapsed time as text.
pub fn summary(results: &Vec<TestResult>, elapsed: String) -> (line: Line)
    ensures
        line@ == summary_line(passed_count(records(results@)), results@.len(), elapsed@),
{
    let passed = count_passed(results);
    let total = results.len();
    let mut line = Line::new();
    match percent_passed(passed, total) {
        None => {
            line.push(String::from_str("\u{279c} 0 tests ran. \u{23f1} : "), Tint::Plain);
            line.push(elapsed, Tint::Magenta);
        },
        Some(percent) => {
            line.push(String::from_str("\u{279c} "), Tint::Plain);
            line.push(decimal_string(passed as u64), Tint::Green);
            line.push(String::from_str(" tests passed, "), Tint::Plain);
            line.push(decimal_string((total - passed) as u64), Tint::Red);
            line.push(String::from_str(" tests failed ("), Tint::Plain);
            line.push(decimal_string(percent), Tint::Yellow);
            line.push(String::from_str("%). \u{23f1} : "), Tint::Plain);
            line.push(elapsed, Tint::Magenta);
        },
    }
    assert(line@ =~~= summary_line(
        passed_count(records(results@)),
        results@.len(),
        elapsed@,
    ));
    line
}

/// The text in which `std` writes a duration of so many nanoseconds with four
/// decimal places (`{:.4?}`).
pub uninterp spec fn elapsed_text(nanos: u64) -> Seq<char>;

/// Formats `std::time::Duration::from_nanos(nanos)` with `{:.4?}`. Trusted: the text
/// is a function of the number alone, here called [`elapsed_text`].
#[verifier::external_body]
fn format_elapsed(nanos: u64) -> (r: String)
    ensures
        r@ == elapsed_text(nanos),
{
    format!("{:.4?}", std::time::Duration::from_nanos(nanos))
}

/// The first line of a record: its status, its name and the gas it used.
pub open spec fn header_line(r: Record) -> Seq<(Seq<char>, Tint)> {
    seq![
        ("["@, Tint::Plain),
        (r.status.label(), r.status.tint()),
        ("] "@ + padded(r.name, NAME_WIDTH as nat) + " - "@, Tint::Plain),
        ("Gas used:"@, Tint::Yellow),
        (" "@ + padded(decimal(r.gas), GAS_WIDTH as nat), Tint::Plain),
    ]
}

/// The first line of a record.
pub fn record_header(result: &TestResult) -> (line: Line)
    ensures
        line@ == header_line(result@),
{
    let mut line = Line::new();
    line.push(String::from_str("["), Tint::Plain);
    line.push(result.status.display_label(), result.status.display_tint());
    let mut name = String::from_str("] ");
    push_padded(&mut name, result.name.as_str(), NAME_WIDTH);
    name.append(" - ");
    line.push(name, Tint::Plain);
    line.push(String::from_str("Gas used:"), Tint::Yellow);
    let gas_digits = decimal_string(result.gas);
    let mut gas = String::from_str(" ");
    push_padded(&mut gas, gas_digits.as_str(), GAS_WIDTH);
    line.push(gas, Tint::Plain);
    assert(line@ =~~= header_line(result@));
    line
}

/// A sub-heading under a record: a branch and the title in cyan.
pub open spec fn heading(title: Seq<char>) -> Seq<(Seq<char>, Tint)> {
    seq![("\u{251c}\u{2500} "@, Tint::Plain), (title, Tint::Cyan)]
}

/// A sub-heading under a record.
pub fn heading_line(title: &str) -> (line: Line)
    ensures
        line@ == heading(title@),
{
    let mut line = Line::new();
    line.push(String::from_str("\u{251c}\u{2500} "), Tint::Plain);
    line.push(String::from_str(title), Tint::Cyan);
    assert(line@ =~~= heading(title@));
    line
}

/// Raw return data under its heading; the data closes the record where no logs
/// follow. Nothing where the record has no return data.
pub open spec fn raw_data_lines(r: Record) -> Seq<Seq<(Seq<char>, Tint)>> {
    match r.return_data {
        None => seq![],
        Some(data) => seq![
            heading("RETURN DATA"@),
            seq![(text_connector(r.logs.len() == 0).glyph() + " "@ + data, Tint::Plain)],
        ],
    }
}

/// One raw log entry: its program counter and its data behind `0x`.
pub open spec fn raw_log_line(pc: nat, log: Seq<char>, is_last: bool) -> Seq<(Seq<char>, Tint)> {
    seq![
        (text_connector(is_last).glyph() + " ["@, Tint::Plain),
        ("PC"@, Tint::Magenta),
        (": "@, Tint::Plain),
        (decimal(pc), Tint::Yellow),
        ("]: 0x"@ + log, Tint::Plain),
    ]
}

/// The raw logs under their heading, in the order of emission, the last one behind
/// a corner. Nothing where there are no logs.
pub open spec fn raw_log_lines(logs: Seq<(nat, Seq<char>)>) -> Seq<Seq<(Seq<char>, Tint)>> {
    if logs.len() == 0 {
        seq![]
    } else {
        seq![heading("LOGS"@)] + Seq::new(
            logs.len(),
            |i: int| raw_log_line(logs[i].0, logs[i].1, i == logs.len() - 1),
        )
    }
}

/// The lines of one record in the raw list.
pub open spec fn list_entry(r: Record) -> Seq<Seq<(Seq<char>, Tint)>> {
    seq![header_line(r)] + raw_data_lines(r) + raw_log_lines(r.logs)
}

/// The raw list: the lines of every record, in the order of the records.
pub open spec fn list_lines(rs: Seq<Record>) -> Seq<Seq<(Seq<char>, Tint)>>
    decreases rs.len(),
{
    if rs.len() == 0 {
        seq![]
    } else {
        list_lines(rs.drop_last()) + list_entry(rs.last())
    }
}

/// One raw log entry.
pub fn raw_log(pc: u32, log: &str, is_last: bool) -> (line: Line)
    ensures
        line@ == raw_log_line(pc as nat, log@, is_last),
{
    let mut line = Line::new();
    let mut lead = String::new();
    pick_text_connector(is_last).push_to(&mut lead);
    lead.append(" [");
    line.push(lead, Tint::Plain);
    line.push(String::from_str("PC"), Tint::Magenta);
    line.push(String::from_str(": "), Tint::Plain);
    line.push(decimal_string(pc as u64), Tint::Yellow);
    let mut data = String::from_str("]: 0x");
    data.append(log);
    line.push(data, Tint::Plain);
    assert(line@ =~~= raw_log_line(pc as nat, log@, is_last));
    line
}

/// Appends the lines of one record in the raw list.
pub fn push_list_entry(out: &mut Vec<Line>, result: &TestResult)
    ensures
        lines_of(final(out)@) == lines_of(old(out)@) + list_entry(result@),
{
    let ghost before = lines_of(out@);
    out.push(record_header(result));
    assert(lines_of(out@) =~= before + seq![header_line(result@)]);
    let count = result.logs.len();
    match &result.return_data {
        None => {},
        Some(data) => {
            out.push(heading_line("RETURN DATA"));
            let mut shown = String::new();
            pick_text_connector(count == 0).push_to(&mut shown);
            shown.append(" ");
            shown.append(data.as_str());
            let mut line = Line::new();
            line.push(shown, Tint::Plain);
            assert(line@ =~~= raw_data_lines(result@)[1]);
            out.push(line);
        },
    }
    assert(lines_of(out@) =~= before + seq![header_line(result@)] + raw_data_lines(result@));
    let ghost with_data = lines_of(out@);
    if count > 0 {
        out.push(heading_line("LOGS"));
        let mut i: usize = 0;
        while i < count
            invariant
                i <= count,
                count == result.logs.len(),
                count > 0,
                lines_of(out@) == with_data + raw_log_lines(result@.logs).take(i + 1),
            decreases count - i,
        {
            let entry = &result.logs[i];
            let line = raw_log(entry.0, entry.1.as_str(), i + 1 == count);
            proof {
                let all = raw_log_lines(result@.logs);
                assert(line@ == all[i + 1]);
                assert(all.take(i + 2) =~= all.take(i + 1).push(all[i + 1]));
                assert(lines_of(out@.push(line)) =~= lines_of(out@).push(line@));
            }
            out.push(line);
            i += 1;
        }
        assert(raw_log_lines(result@.logs).take(count + 1) =~= raw_log_lines(result@.logs));
    }
    assert(lines_of(out@) =~= before + list_entry(result@));
}

/// The raw list of `results`.
pub fn render_list(results: &Vec<TestResult>) -> (lines: Vec<Line>)
    ensures
        lines_of(lines@) == list_lines(records(results@)),
{
    let mut lines: Vec<Line> = Vec::new();
    let mut i: usize = 0;
    assert(lines_of(lines@) =~= list_lines(records(results@).take(0)));
    while i < results.len()
        invariant
            i <= results.len(),
            lines_of(lines@) == list_lines(records(results@).take(i as int)),
        decreases results.len() - i,
    {
        proof {
            assert(records(results@).take(i + 1).drop_last() =~= records(results@).take(i as int));
        }
        push_list_entry(&mut lines, &results[i]);
        i += 1;
    }
    assert(records(results@).take(results.len() as int) =~= records(results@));
    lines
}

/// What stands in place of a payload that could not be decoded.
pub open spec fn error_note(e: DecodeError) -> Seq<char> {
    match e {
        DecodeError::MalformedHex => "<malformed hex>"@,
        DecodeError::AbiDecodeMismatch => "<not an ABI-encoded string>"@,
        DecodeError::InvalidFixedString => "<not a UTF-8 string>"@,
    }
}

/// What stands in place of a payload that could not be decoded.
pub fn error_placeholder(e: DecodeError) -> (r: String)
    ensures
        r@ == error_note(e),
{
    match e {
        DecodeError::MalformedHex => String::from_str("<malformed hex>"),
        DecodeError::AbiDecodeMismatch => String::from_str("<not an ABI-encoded string>"),
        DecodeError::InvalidFixedString => String::from_str("<not a UTF-8 string>"),
    }
}

/// The text shown for return data in the decoded list: the revert message, or the
/// note of the error where the data does not decode.
pub open spec fn revert_text(data: Seq<char>) -> Seq<char> {
    match revert_message(encode_utf8(data)) {
        Ok(message) => message,
        Err(e) => error_note(e),
    }
}

/// The decoded return data, in red; it closes the record where no logs follow.
/// Nothing where the record has no return data.
pub open spec fn decoded_data_lines(r: Record) -> Seq<Seq<(Seq<char>, Tint)>> {
    match r.return_data {
        None => seq![],
        Some(data) => seq![
            seq![
                (text_connector(r.logs.len() == 0).glyph() + " "@, Tint::Plain),
                (revert_text(data), Tint::Red),
            ],
        ],
    }
}

/// One decoded log entry; where it does not decode, the note of the error in red.
pub open spec fn decoded_log_line(log: Seq<char>, is_last: bool) -> Seq<(Seq<char>, Tint)> {
    match log_entry_line(log, is_last) {
        Ok(line) => line,
        Err(e) => seq![
            (text_connector(is_last).glyph() + " "@, Tint::Plain),
            (error_note(e), Tint::Red),
        ],
    }
}

/// The decoded logs in the order of emission; only the last one counts as last.
pub open spec fn decoded_log_lines(logs: Seq<(nat, Seq<char>)>) -> Seq<Seq<(Seq<char>, Tint)>> {
    Seq::new(logs.len(), |i: int| decoded_log_line(logs[i].1, i == logs.len() - 1))
}

/// The lines of one record in the decoded list.
pub open spec fn decoded_entry(r: Record) -> Seq<Seq<(Seq<char>, Tint)>> {
    seq![header_line(r)] + decoded_data_lines(r) + decoded_log_lines(r.logs)
}

/// The decoded list: the lines of every record, in the order of the records.
pub open spec fn decoded_lines(rs: Seq<Record>) -> Seq<Seq<(Seq<char>, Tint)>>
    decreases rs.len(),
{
    if rs.len() == 0 {
        seq![]
    } else {
        decoded_lines(rs.drop_last()) + decoded_entry(rs.last())
    }
}

/// A connector and a text in red behind it.
fn red_line(is_last: bool, text: String) -> (line: Line)
    ensures
        line@ == seq![
            (text_connector(is_last).glyph() + " "@, Tint::Plain),
            (text@, Tint::Red),
        ],
{
    let mut lead = String::new();
    pick_text_connector(is_last).push_to(&mut lead);
    lead.append(" ");
    let mut line = Line::new();
    line.push(lead, Tint::Plain);
    line.push(text, Tint::Red);
    assert(line@ =~~= seq![
        (text_connector(is_last).glyph() + " "@, Tint::Plain),
        (text@, Tint::Red),
    ]);
    line
}

/// One decoded log entry.
pub fn decoded_log(log: &str, position: usize, is_last: bool) -> (line: Line)
    ensures
        line@ == decoded_log_line(log@, is_last),
{
    match decode_log_entry(log, position, is_last) {
        Ok(line) => line,
        Err(e) => red_line(is_last, error_placeholder(e)),
    }
}

/// Appends the lines of one record in the decoded list.
pub fn push_decoded_entry(out: &mut Vec<Line>, result: &TestResult)
    ensures
        lines_of(final(out)@) == lines_of(old(out)@) + decoded_entry(result@),
{
    let ghost before = lines_of(out@);
    out.push(record_header(result));
    assert(lines_of(out@) =~= before + seq![header_line(result@)]);
    let count = result.logs.len();
    match &result.return_data {
        None => {},
        Some(data) => {
            let text = match decode_revert(data.as_str()) {
                Ok(message) => message,
                Err(e) => error_placeholder(e),
            };
            let line = red_line(count == 0, text);
            assert(line@ =~~= decoded_data_lines(result@)[0]);
            out.push(line);
        },
    }
    assert(lines_of(out@) =~= before + seq![header_line(result@)] + decoded_data_lines(
        result@,
    ));
    let ghost with_data = lines_of(out@);
    let mut i: usize = 0;
    while i < count
        invariant
            i <= count,
            count == result.logs.len(),
            lines_of(out@) == with_data + decoded_log_lines(result@.logs).take(i as int),
        decreases count - i,
    {
        let entry = &result.logs[i];
        let line = decoded_log(entry.1.as_str(), i, i + 1 == count);
        proof {
            let all = decoded_log_lines(result@.logs);
            assert(line@ == all[i as int]);
            assert(all.take(i + 1) =~= all.take(i as int).push(all[i as int]));
            assert(lines_of(out@.push(line)) =~= lines_of(out@).push(line@));
        }
        out.push(line);
        i += 1;
    }
    assert(decoded_log_lines(result@.logs).take(count as int) =~= decoded_log_lines(
        result@.logs,
    ));
    assert(lines_of(out@) =~= before + decoded_entry(result@));
}

/// The decoded list of `results`.
pub fn render_decoded(results: &Vec<TestResult>) -> (lines: Vec<Line>)
    ensures
        lines_of(lines@) == decoded_lines(records(results@)),
{
    let mut lines: Vec<Line> = Vec::new();
    let mut i: usize = 0;
    assert(lines_of(lines@) =~= decoded_lines(records(results@).take(0)));
    while i < results.len()
        invariant
            i <= results.len(),
            lines_of(lines@) == decoded_lines(records(results@).take(i as int)),
        decreases results.len() - i,
    {
        proof {
            assert(records(results@).take(i + 1).drop_last() =~= records(results@).take(i as int));
        }
        push_decoded_entry(&mut lines, &results[i]);
        i += 1;
    }
    assert(records(results@).take(results.len() as int) =~= records(results@));
    lines
}

/// The header of the table.
pub open spec fn header_cells() -> Seq<Seq<char>> {
    seq!["Name"@, "Return Data"@, "Gas"@, "Status"@]
}

/// The row of one record: its name, its raw return data or `None`, the gas in
/// decimal, and the label of its status.
pub open spec fn row_cells(r: Record) -> Seq<Seq<char>> {
    seq![
        r.name,
        match r.return_data {
            Some(data) => data,
            None => "None"@,
        },
        decimal(r.gas),
        r.status.label(),
    ]
}

/// The rows of the table: one per record, in the order of the records.
pub open spec fn table_body(rs: Seq<Record>) -> Seq<Seq<Seq<char>>> {
    rs.map_values(|r: Record| row_cells(r))
}

/// The cells of the row of one record.
fn record_row(result: &TestResult) -> (cells: Vec<Cell>)
    ensures
        cell_texts(cells@) == row_cells(result@),
{
    let mut cells: Vec<Cell> = Vec::new();
    cells.push(tint_cell(bold_cell(new_cell(result.name.as_str())), Tint::Cyan));
    match &result.return_data {
        Some(data) => cells.push(new_cell(data.as_str())),
        None => cells.push(new_cell("None")),
    }
    cells.push(new_cell(decimal_string(result.gas).as_str()));
    cells.push(
        tint_cell(new_cell(result.status.display_label().as_str()), result.status.display_tint()),
    );
    assert(cell_texts(cells@) =~~= row_cells(result@));
    cells
}

/// The table of `results`: the header, then one row per result in order.
pub fn render_table(results: &Vec<TestResult>) -> (table: Table)
    ensures
        table_header(table) == Some(header_cells()),
        table_rows(table) == table_body(records(results@)),
{
    let mut table = new_table();
    frame_table(&mut table, TABLE_WIDTH);
    let mut header: Vec<Cell> = Vec::new();
    header.push(tint_cell(new_cell("Name"), Tint::Magenta));
    header.push(tint_cell(new_cell("Return Data"), Tint::Yellow));
    header.push(tint_cell(new_cell("Gas"), Tint::Cyan));
    header.push(tint_cell(new_cell("Status"), Tint::Blue));
    assert(cell_texts(header@) =~~= header_cells());
    set_header(&mut table, header);
    let mut i: usize = 0;
    assert(table_rows(table) =~= table_body(records(results@)).take(0));
    while i < results.len()
        invariant
            i <= results.len(),
            table_header(table) == Some(header_cells()),
            table_rows(table) == table_body(records(results@)).take(i as int),
        decreases results.len() - i,
    {
        let cells = record_row(&results[i]);
        proof {
            let all = table_body(records(results@));
            assert(all.take(i + 1) =~= all.take(i as int).push(all[i as int]));
        }
        add_row(&mut table, cells);
        i += 1;
    }
    assert(table_body(records(results@)).take(results.len() as int) =~= table_body(
        records(results@),
    ));
    table
}

/// A record without return data and without logs shows `None` in the table, and
/// its header line alone in both lists: no sub-heading, no connector.
pub proof fn lemma_bare_record(r: Record)
    requires
        r.return_data is None,
        r.logs.len() == 0,
    ensures
        row_cells(r)[1] == "None"@,
        list_entry(r) == seq![header_line(r)],
        decoded_entry(r) == seq![header_line(r)],
{
    assert(list_entry(r) =~= seq![header_line(r)]);
    assert(decoded_entry(r) =~= seq![header_line(r)]);
}

/// Where no record has return data or logs, every row of the table shows `None`, and
/// both lists are the header lines of the records, one each.
pub proof fn lemma_bare_records(rs: Seq<Record>)
    requires
        forall|i: int| 0 <= i < rs.len() ==> rs[i].return_data is None && rs[i].logs.len() == 0,
    ensures
        forall|i: int| 0 <= i < rs.len() ==> (#[trigger] table_body(rs)[i])[1] == "None"@,
        list_lines(rs) == rs.map_values(|r: Record| header_line(r)),
        decoded_lines(rs) == rs.map_values(|r: Record| header_line(r)),
    decreases rs.len(),
{
    if rs.len() > 0 {
        lemma_bare_records(rs.drop_last());
        lemma_bare_record(rs.last());
        assert(list_lines(rs) =~= rs.map_values(|r: Record| header_line(r)));
        assert(decoded_lines(rs) =~= rs.map_values(|r: Record| header_line(r)));
    } else {
        assert(list_lines(rs) =~= rs.map_values(|r: Record| header_line(r)));
        assert(decoded_lines(rs) =~= rs.map_values(|r: Record| header_line(r)));
    }
}

/// A report, ready to be written out.
pub enum Report {
    /// The table, and the summary under it.
    Table { table: Table, summary: Line },
    /// The lines of a list, and the summary under them.
    Lines { lines: Vec<Line>, summary: Line },
    /// The records are to be written as they stand, as one structured document;
    /// there is no summary.
    Dump,
}

/// The summary of a report over the records `rs` that took `nanos` nanoseconds.
pub open spec fn summary_of(rs: Seq<Record>, nanos: u64) -> Seq<(Seq<char>, Tint)> {
    summary_line(passed_count(rs), rs.len(), elapsed_text(nanos))
}

/// The report on `results` in the form `kind`, for a run that took `elapsed_nanos`
/// nanoseconds. Every form but the structured dump carries the summary.
pub fn test_report(results: &Vec<TestResult>, kind: ReportKind, elapsed_nanos: u64) -> (report:
    Report)
    ensures
        match kind {
            ReportKind::Table => report matches Report::Table { table, summary }
                && table_header(table) == Some(header_cells())
                && table_rows(table) == table_body(records(results@))
                && summary@ == summary_of(records(results@), elapsed_nanos),
            ReportKind::List => report matches Report::Lines { lines, summary }
                && lines_of(lines@) == list_lines(records(results@))
                && summary@ == summary_of(records(results@), elapsed_nanos),
            ReportKind::HuffTest => report matches Report::Lines { lines, summary }
                && lines_of(lines@) == decoded_lines(records(results@))
                && summary@ == summary_of(records(results@), elapsed_nanos),
            ReportKind::JSON => report is Dump,
        },
{
    match kind {
        ReportKind::JSON => Report::Dump,
        ReportKind::Table => {
            let table = render_table(results);
            Report::Table { table, summary: summary(results, format_elapsed(elapsed_nanos)) }
        },
        ReportKind::List => {
            let lines = render_list(results);
            Report::Lines { lines, summary: summary(results, format_elapsed(elapsed_nanos)) }
        },
        ReportKind::HuffTest => {
            let lines = render_decoded(results);
            Report::Lines { lines, summary: summary(results, format_elapsed(elapsed_nanos)) }
        },
    }
}

} // verus!

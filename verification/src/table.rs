//! The report as a table: cells, rows and the table itself are `comfy_table`'s; what
//! they hold is followed here as text.

use vstd::prelude::*;
use comfy_table::{Cell, Table};
use crate::style::Tint;

verus! {

/// `comfy_table::Cell`, opaque but for its text.
#[verifier::external_type_specification]
#[verifier::external_body]
pub struct ExCell(Cell);

/// `comfy_table::Table`, opaque but for the text of its header and rows.
#[verifier::external_type_specification]
#[verifier::external_body]
pub struct ExTable(Table);

/// The content of a cell, as `Cell::content` returns it.
pub uninterp spec fn cell_text(cell: Cell) -> Seq<char>;

/// The content of the cells of the header row, if a header is set.
pub uninterp spec fn table_header(table: Table) -> Option<Seq<Seq<char>>>;

/// The content of the cells of each row, in the order in which the rows were added.
pub uninterp spec fn table_rows(table: Table) -> Seq<Seq<Seq<char>>>;

/// The content of each of `cells`.
pub open spec fn cell_texts(cells: Seq<Cell>) -> Seq<Seq<char>> {
    cells.map_values(|c: Cell| cell_text(c))
}

/// Calls `Cell::new`. Trusted: the cell's content is the text given.
#[verifier::external_body]
pub(crate) fn new_cell(text: &str) -> (cell: Cell)
    ensures
        cell_text(cell) == text@,
{
    Cell::new(text)
}

/// Calls `Cell::fg`. Trusted: the content stays as it is.
#[verifier::external_body]
pub(crate) fn tint_cell(cell: Cell, tint: Tint) -> (r: Cell)
    requires
        tint != Tint::Plain,
    ensures
        cell_text(r) == cell_text(cell),
{
    cell.fg(
        match tint {
            Tint::Plain => comfy_table::Color::Reset,
            Tint::Red => comfy_table::Color::Red,
            Tint::Green => comfy_table::Color::Green,
            Tint::Yellow => comfy_table::Color::Yellow,
            Tint::Blue => comfy_table::Color::Blue,
            Tint::Magenta => comfy_table::Color::Magenta,
            Tint::Cyan => comfy_table::Color::Cyan,
        },
    )
}

/// Calls `Cell::add_attribute` with `Attribute::Bold`. Trusted: the content stays as
/// it is.
#[verifier::external_body]
pub(crate) fn bold_cell(cell: Cell) -> (r: Cell)
    ensures
        cell_text(r) == cell_text(cell),
{
    cell.add_attribute(comfy_table::Attribute::Bold)
}

/// Calls `Table::new`. Trusted: the new table has no header and no rows.
#[verifier::external_body]
pub(crate) fn new_table() -> (table: Table)
    ensures
        table_header(table) is None,
        table_rows(table) == Seq::<Seq<Seq<char>>>::empty(),
{
    Table::new()
}

/// Sets the frame and the layout: the preset `UTF8_FULL` with the modifier
/// `UTF8_ROUND_CORNERS`, dynamic arrangement over the full width, and the width
/// given. Trusted: header and rows stay as they are.
#[verifier::external_body]
pub(crate) fn frame_table(table: &mut Table, width: u16)
    ensures
        table_header(*final(table)) == table_header(*old(table)),
        table_rows(*final(table)) == table_rows(*old(table)),
{
    table.load_preset(comfy_table::presets::UTF8_FULL);
    table.apply_modifier(comfy_table::modifiers::UTF8_ROUND_CORNERS);
    table.set_content_arrangement(comfy_table::ContentArrangement::DynamicFullWidth);
    table.set_width(width);
}

/// Calls `Table::set_header`. Trusted: the header becomes the cells given, the rows
/// stay as they are.
#[verifier::external_body]
pub(crate) fn set_header(table: &mut Table, cells: Vec<Cell>)
    ensures
        table_header(*final(table)) == Some(cell_texts(cells@)),
        table_rows(*final(table)) == table_rows(*old(table)),
{
    table.set_header(cells);
}

/// Calls `Table::add_row`. Trusted: the cells given become the last row, and nothing
/// else changes.
#[verifier::external_body]
pub(crate) fn add_row(table: &mut Table, cells: Vec<Cell>)
    ensures
        table_header(*final(table)) == table_header(*old(table)),
        table_rows(*final(table)) == table_rows(*old(table)).push(cell_texts(cells@)),
{
    table.add_row(cells);
}

} // verus!

//! The rules of the lookup as mathematical functions: what a row holds once its
//! three room fields are read, when a field names the room that was asked for, and
//! which cables a table yields for a room.

use crate::cell::{cell_at, text_of, CellView, RowView};
use crate::decimal::int_text;
use crate::parse::CableType;
use crate::split::{pattern_split, room_tokens};
use vstd::prelude::*;

verus! {

/// The column of a record's identifier.
pub const INDEX_COLUMN: usize = 0;

/// The column of the marker that takes a record out of the lookup.
pub const MARKER_COLUMN: usize = 2;

/// The column of the long-form field, a free text that may name several rooms.
pub const LONG_COLUMN: usize = 9;

/// The column of the first short-form field, which names one room.
pub const SHORT_FIRST_COLUMN: usize = 11;

/// The column of the second short-form field, which names one room.
pub const SHORT_SECOND_COLUMN: usize = 14;

/// The number of characters of a room number that is written in full.
pub const ROOM_LEN: usize = 5;

/// The marker of the records that are left out: the Cyrillic letters Pe, Em, El.
pub open spec fn excluded_marker() -> Seq<char> {
    seq!['П', 'М', 'Л']
}

/// The identifier given to a record whose identifier cell holds no text.
pub open spec fn missing_index() -> Seq<char> {
    seq!['N', 'o', 'n', 'e']
}

/// The regular expression at whose matches the long-form text is cut: one space,
/// bracket or semicolon.
pub open spec fn delimiter_pattern() -> Seq<char> {
    seq!['[', ' ', '(', ')', ';', ']']
}

/// The error of a field whose cell holds nothing that can be read.
pub open spec fn empty_error() -> Seq<char> {
    seq!['E', 'm', 'p', 't', 'y']
}

/// The error of a column that holds no room field.
pub open spec fn wrong_column_error() -> Seq<char> {
    seq!['W', 'r', 'o', 'n', 'g', ' ', 'c', 'o', 'l', 'u', 'm', 'n']
}

/// The error of a long-form text that could not be cut because the delimiter
/// expression was rejected.
pub open spec fn wrong_pattern_error() -> Seq<char> {
    seq!['W', 'r', 'o', 'n', 'g', ' ', 'p', 'a', 't', 't', 'e', 'r', 'n']
}

/// The message of a lookup that found no cable.
pub open spec fn not_found_message() -> Seq<char> {
    "Совпадений не найдено, попробуйте поменять буквы с латинских на русские, или наоборот"@
}

/// What reading one room field of a row yields.
pub enum ParseView {
    ParseList(Seq<Seq<char>>),
    ParseSingle(Seq<char>),
}

/// The fields read from one row.
pub struct ExtractedRow {
    pub index: Seq<char>,
    pub column_long: Option<Seq<Seq<char>>>,
    pub column_short_first: Option<Seq<char>>,
    pub column_short_second: Option<Seq<char>>,
}

/// A cable of the answer.
pub struct CableView {
    pub index: Seq<char>,
    pub cable_type: CableType,
}

/// The identifier of a row: the text of its first cell, or `None` spelled out.
pub open spec fn index_of(row: RowView) -> Seq<char> {
    match text_of(cell_at(row, INDEX_COLUMN as int)) {
        Some(text) => text,
        None => missing_index(),
    }
}

/// The outcome of reading a cell as a long-form field: the room tokens of its text.
pub open spec fn long_outcome(cell: CellView) -> Result<ParseView, Seq<char>> {
    match text_of(cell) {
        Some(text) => match pattern_split(delimiter_pattern(), text) {
            Some(pieces) => Ok(ParseView::ParseList(room_tokens(pieces))),
            None => Err(wrong_pattern_error()),
        },
        None => Err(empty_error()),
    }
}

/// The outcome of reading a cell as a short-form field: its text, or its number
/// written out.
pub open spec fn short_outcome(cell: CellView) -> Result<ParseView, Seq<char>> {
    match cell {
        CellView::Text(text) => Ok(ParseView::ParseSingle(text)),
        CellView::Int(number) => Ok(ParseView::ParseSingle(int_text(number))),
        CellView::Float(text) => Ok(ParseView::ParseSingle(text)),
        CellView::Other => Err(empty_error()),
    }
}

/// The outcome of reading the room field at `column` of `row`.
pub open spec fn column_outcome(row: RowView, column: int) -> Result<ParseView, Seq<char>> {
    if column == LONG_COLUMN {
        long_outcome(cell_at(row, column))
    } else if column == SHORT_FIRST_COLUMN || column == SHORT_SECOND_COLUMN {
        short_outcome(cell_at(row, column))
    } else {
        Err(wrong_column_error())
    }
}

/// The long-form field of a row: present where reading it gave a list.
pub open spec fn long_field(row: RowView) -> Option<Seq<Seq<char>>> {
    match column_outcome(row, LONG_COLUMN as int) {
        Ok(ParseView::ParseList(rooms)) => Some(rooms),
        _ => None,
    }
}

/// The short-form field at `column` of a row: present where reading it gave one
/// value.
pub open spec fn short_field(row: RowView, column: int) -> Option<Seq<char>> {
    match column_outcome(row, column) {
        Ok(ParseView::ParseSingle(room)) => Some(room),
        _ => None,
    }
}

/// The fields of a row.
pub open spec fn extract(row: RowView) -> ExtractedRow {
    ExtractedRow {
        index: index_of(row),
        column_long: long_field(row),
        column_short_first: short_field(row, SHORT_FIRST_COLUMN as int),
        column_short_second: short_field(row, SHORT_SECOND_COLUMN as int),
    }
}

/// The room without one leading zero: records often drop it, queries never do.
/// A room that does not start with a zero stays as it is.
pub open spec fn cut_room(room: Seq<char>) -> Seq<char> {
    if room.len() > 0 && room[0] == '0' {
        room.subrange(1, room.len() as int)
    } else {
        room
    }
}

/// Whether a short-form field names the room: a field of five characters is held
/// against the room as asked, any other against the room without its leading zero.
pub open spec fn short_matches(field: Seq<char>, room: Seq<char>, room_cutted: Seq<char>) -> bool {
    if field.len() == ROOM_LEN {
        field == room
    } else {
        field == room_cutted
    }
}

/// Whether a short-form field is present and names the room.
pub open spec fn short_field_matches(
    field: Option<Seq<char>>,
    room: Seq<char>,
    room_cutted: Seq<char>,
) -> bool {
    match field {
        Some(value) => short_matches(value, room, room_cutted),
        None => false,
    }
}

/// Whether the long-form field is present and holds the room, as asked, among
/// its tokens.
pub open spec fn long_matches(column_long: Option<Seq<Seq<char>>>, room: Seq<char>) -> bool {
    match column_long {
        Some(rooms) => rooms.contains(room),
        None => false,
    }
}

/// The kind of cable that the three matches of a row make, if any.
pub open spec fn classification(
    is_long: bool,
    is_short_first: bool,
    is_short_second: bool,
) -> Option<CableType> {
    let is_short = is_short_first || is_short_second;
    if is_long && !is_short {
        Some(CableType::Transit)
    } else if is_long && is_short {
        Some(CableType::Magistral)
    } else if is_short {
        Some(CableType::Local)
    } else {
        None
    }
}

/// The cable that the fields of a row make for a room and its cut form.
pub open spec fn cable_of(
    extracted: ExtractedRow,
    room: Seq<char>,
    room_cutted: Seq<char>,
) -> Option<CableView> {
    match classification(
        long_matches(extracted.column_long, room),
        short_field_matches(extracted.column_short_first, room, room_cutted),
        short_field_matches(extracted.column_short_second, room, room_cutted),
    ) {
        Some(cable_type) => Some(CableView { index: extracted.index, cable_type }),
        None => None,
    }
}

/// Whether a row carries the marker that takes it out of the lookup.
pub open spec fn is_excluded(row: RowView) -> bool {
    text_of(cell_at(row, MARKER_COLUMN as int)) == Some(excluded_marker())
}

/// The cable that one row of the table contributes to the answer for `room`.
pub open spec fn row_cable(row: RowView, room: Seq<char>) -> Option<CableView> {
    if is_excluded(row) {
        None
    } else {
        cable_of(extract(row), room, cut_room(room))
    }
}

/// The cables of `rows` for `room`, in the order of the rows.
pub open spec fn cables_in(rows: Seq<RowView>, room: Seq<char>) -> Seq<CableView>
    decreases rows.len(),
{
    if rows.len() == 0 {
        Seq::empty()
    } else {
        let before = cables_in(rows.drop_last(), room);
        match row_cable(rows.last(), room) {
            Some(cable) => before.push(cable),
            None => before,
        }
    }
}

/// The answer of the lookup: the cables of the table for the room, or the
/// message that none was found.
pub open spec fn lookup(table: Seq<RowView>, room: Seq<char>) -> Result<Seq<CableView>, Seq<char>> {
    let cables = cables_in(table, room);
    if cables.len() == 0 {
        Err(not_found_message())
    } else {
        Ok(cables)
    }
}

} // verus!

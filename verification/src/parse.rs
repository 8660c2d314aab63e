//! Reading the room fields of a record and finding the cables of a room.

use crate::cell::{text_at, Cell, RowView, Table};
use crate::decimal::int_to_string;
use crate::model::{
    cable_of, cables_in, classification, column_outcome, cut_room, delimiter_pattern,
    empty_error, excluded_marker, extract, is_excluded, long_matches, lookup, missing_index,
    short_matches, wrong_column_error, wrong_pattern_error, CableView, ExtractedRow, ParseView,
    INDEX_COLUMN, LONG_COLUMN, MARKER_COLUMN, ROOM_LEN, SHORT_FIRST_COLUMN, SHORT_SECOND_COLUMN,
};
use crate::split::{keep_room_tokens, split_by_pattern};
use vstd::prelude::*;
use vstd::string::{StrSliceExecFns, StringExecFns};

verus! {

/// What reading one room field gives: the tokens of a long-form field, or the one
/// value of a short-form field.
#[derive(Debug, Clone, PartialEq, Eq)]
pub enum ParseResult {
    ParseList(Vec<String>),
    ParseSingle(String),
}

impl DeepView for ParseResult {
    type V = ParseView;

    open spec fn deep_view(&self) -> ParseView {
        match self {
            ParseResult::ParseList(rooms) => ParseView::ParseList(rooms.deep_view()),
            ParseResult::ParseSingle(room) => ParseView::ParseSingle(room@),
        }
    }
}

/// A cable of the answer: the identifier of its record and how it relates to the
/// room.
#[derive(Debug, Clone, PartialEq, Eq)]
pub struct Cable {
    pub index: String,
    pub cable_type: CableType,
}

impl DeepView for Cable {
    type V = CableView;

    open spec fn deep_view(&self) -> CableView {
        CableView { index: self.index@, cable_type: self.cable_type }
    }
}

/// How a cable relates to the room that was asked for.
#[derive(Debug, Clone, Copy, PartialEq, Eq, Structural)]
pub enum CableType {
    /// The cable passes through the room and also ends in it.
    Magistral,
    /// The cable passes through the room without ending in it.
    Transit,
    /// The cable ends in the room and does not pass through it.
    Local,
}

impl CableType {
    /// The name of the kind.
    pub open spec fn name(self) -> Seq<char> {
        match self {
            CableType::Magistral => seq!['M', 'a', 'g', 'i', 's', 't', 'r', 'a', 'l'],
            CableType::Transit => seq!['T', 'r', 'a', 'n', 's', 'i', 't'],
            CableType::Local => seq!['L', 'o', 'c', 'a', 'l'],
        }
    }

    /// The name of the kind, as it is shown to the user.
    pub fn to_string(&self) -> (text: String)
        ensures
            text@ == self.name(),
    {
        proof {
            reveal_strlit("Magistral");
            reveal_strlit("Transit");
            reveal_strlit("Local");
        }
        let text = match self {
            CableType::Magistral => String::from_str("Magistral"),
            CableType::Transit => String::from_str("Transit"),
            CableType::Local => String::from_str("Local"),
        };
        assert(text@ =~= self.name());
        text
    }
}

/// The fields read from one row.
#[derive(Debug, Clone, PartialEq, Eq)]
pub struct ParseRowResult {
    pub index: String,
    pub column_long: Option<Vec<String>>,
    pub column_short_first: Option<String>,
    pub column_short_second: Option<String>,
}

impl DeepView for ParseRowResult {
    type V = ExtractedRow;

    open spec fn deep_view(&self) -> ExtractedRow {
        ExtractedRow {
            index: self.index@,
            column_long: self.column_long.deep_view(),
            column_short_first: self.column_short_first.deep_view(),
            column_short_second: self.column_short_second.deep_view(),
        }
    }
}

impl ParseRowResult {
    /// A row of which nothing was read yet: an empty identifier and no field.
    pub fn new() -> (fresh: Self)
        ensures
            fresh.deep_view() == (ExtractedRow {
                index: Seq::empty(),
                column_long: None,
                column_short_first: None,
                column_short_second: None,
            }),
    {
        ParseRowResult {
            index: String::new(),
            column_long: None,
            column_short_first: None,
            column_short_second: None,
        }
    }
}

/// The view of the outcome of reading a field.
pub open spec fn outcome_view(outcome: Result<ParseResult, String>) -> Result<ParseView, Seq<char>> {
    match outcome {
        Ok(parsed) => Ok(parsed.deep_view()),
        Err(message) => Err(message@),
    }
}

/// Reads the room field at `column` of `row`.
///
/// The long-form column gives the list of its five-character tokens, each short-form
/// column its one value as text. A cell that is missing or of a kind that the field
/// cannot hold is reported as `Empty`, any other column as `Wrong column`, and a
/// long-form text that the regex engine could not cut as `Wrong pattern`.
pub fn parse_column(row: &Vec<Cell>, column: usize) -> (outcome: Result<ParseResult, String>)
    ensures
        outcome_view(outcome) == column_outcome(row.deep_view(), column as int),
        outcome matches Ok(ParseResult::ParseList(rooms)) ==> forall|i: int|
            0 <= i < rooms.len() ==> (#[trigger] rooms[i])@.len() == ROOM_LEN,
{
    proof {
        reveal_strlit("Empty");
        reveal_strlit("Wrong column");
        reveal_strlit("Wrong pattern");
        reveal_strlit("[ ();]");
    }
    assert("Empty"@ =~= empty_error());
    assert("Wrong column"@ =~= wrong_column_error());
    assert("Wrong pattern"@ =~= wrong_pattern_error());
    assert("[ ();]"@ =~= delimiter_pattern());
    if column == LONG_COLUMN {
        let column_value = match text_at(row, column) {
            Some(value) => value,
            None => return Err(String::from_str("Empty")),
        };
        match split_by_pattern("[ ();]", column_value.as_str()) {
            Some(pieces) => Ok(ParseResult::ParseList(keep_room_tokens(pieces))),
            None => Err(String::from_str("Wrong pattern")),
        }
    } else if column == SHORT_FIRST_COLUMN || column == SHORT_SECOND_COLUMN {
        if column < row.len() {
            match &row[column] {
                Cell::Float(value) => Ok(ParseResult::ParseSingle(value.clone())),
                Cell::Int(value) => Ok(ParseResult::ParseSingle(int_to_string(*value))),
                Cell::Text(value) => Ok(ParseResult::ParseSingle(value.clone())),
                Cell::Other => Err(String::from_str("Empty")),
            }
        } else {
            Err(String::from_str("Empty"))
        }
    } else {
        Err(String::from_str("Wrong column"))
    }
}

/// Reads the identifier and the three room fields of a row.
///
/// A field that cannot be read is left out; the row is read all the same.
pub fn parse_row(row: &Vec<Cell>) -> (parse_row_result: ParseRowResult)
    ensures
        parse_row_result.deep_view() == extract(row.deep_view()),
        parse_row_result.column_long matches Some(rooms) ==> forall|i: int|
            0 <= i < rooms.len() ==> (#[trigger] rooms[i])@.len() == ROOM_LEN,
{
    let mut parse_row_result = ParseRowResult::new();
    proof {
        reveal_strlit("None");
    }
    assert("None"@ =~= missing_index());
    parse_row_result.index = match text_at(row, INDEX_COLUMN) {
        Some(value) => value.clone(),
        None => String::from_str("None"),
    };
    match parse_column(row, LONG_COLUMN) {
        Ok(ParseResult::ParseList(rooms)) => {
            parse_row_result.column_long = Some(rooms);
        },
        _ => {
            parse_row_result.column_long = None;
        },
    }
    match parse_column(row, SHORT_FIRST_COLUMN) {
        Ok(ParseResult::ParseSingle(room)) => {
            parse_row_result.column_short_first = Some(room);
        },
        _ => {
            parse_row_result.column_short_first = None;
        },
    }
    match parse_column(row, SHORT_SECOND_COLUMN) {
        Ok(ParseResult::ParseSingle(room)) => {
            parse_row_result.column_short_second = Some(room);
        },
        _ => {
            parse_row_result.column_short_second = None;
        },
    }
    parse_row_result
}

/// The room without one leading zero; a room that starts otherwise is returned
/// as it is.
pub fn cut_leading_zero(room: &String) -> (room_cutted: String)
    ensures
        room_cutted@ == cut_room(room@),
{
    let text = room.as_str();
    let len = text.unicode_len();
    if len > 0 && text.get_char(0) == '0' {
        String::from_str(text.substring_char(1, len))
    } else {
        room.clone()
    }
}

/// Whether a short-form field names the room.
///
/// A field of five characters is held against `room`, any other against
/// `room_cutted`.
pub fn matches_short(field: &String, room: &String, room_cutted: &String) -> (is_short: bool)
    ensures
        is_short == short_matches(field@, room@, room_cutted@),
        field@.len() == 5 ==> is_short == (field@ == room@),
        field@.len() != 5 ==> is_short == (field@ == room_cutted@),
{
    if field.as_str().unicode_len() == ROOM_LEN {
        *field == *room
    } else {
        *field == *room_cutted
    }
}

/// Whether `room` is one of `rooms`.
fn contains_room(rooms: &Vec<String>, room: &String) -> (found: bool)
    ensures
        found == rooms.deep_view().contains(room@),
{
    let mut i: usize = 0;
    while i < rooms.len()
        invariant
            i <= rooms.len(),
            forall|k: int| 0 <= k < i ==> rooms.deep_view()[k] != room@,
        decreases rooms.len() - i,
    {
        if rooms[i] == *room {
            assert(rooms.deep_view()[i as int] == room@);
            return true;
        }
        i += 1;
    }
    false
}

/// Whether the long-form field is present and holds `room` among its tokens.
pub fn matches_long(column_long: &Option<Vec<String>>, room: &String) -> (is_long: bool)
    ensures
        is_long == long_matches(column_long.deep_view(), room@),
{
    match column_long {
        Some(rooms) => contains_room(rooms, room),
        None => false,
    }
}

/// The kind of cable that the three matches of a row make.
///
/// A match of the long-form field alone is a transit, with a match of either
/// short-form field a magistral; a match of a short-form field alone is a local
/// cable. No match makes no cable.
pub fn classify(is_long: bool, is_short_first: bool, is_short_second: bool) -> (kind: Option<
    CableType,
>)
    ensures
        kind == classification(is_long, is_short_first, is_short_second),
        is_long && !(is_short_first || is_short_second) ==> kind == Some(CableType::Transit),
        is_long && (is_short_first || is_short_second) ==> kind == Some(CableType::Magistral),
        !is_long && (is_short_first || is_short_second) ==> kind == Some(CableType::Local),
        !is_long && !(is_short_first || is_short_second) ==> kind is None,
{
    if is_long && (!is_short_first && !is_short_second) {
        Some(CableType::Transit)
    } else if is_long && (is_short_first || is_short_second) {
        Some(CableType::Magistral)
    } else if !is_long && (is_short_first || is_short_second) {
        Some(CableType::Local)
    } else {
        None
    }
}

/// The cable that the fields of a row make for `room`, whose form without the
/// leading zero is `room_cutted`.
pub fn classify_row(build_result: &ParseRowResult, room: &String, room_cutted: &String) -> (cable:
    Option<Cable>)
    ensures
        cable.deep_view() == cable_of(build_result.deep_view(), room@, room_cutted@),
{
    let is_long = matches_long(&build_result.column_long, room);
    let is_short_first = match &build_result.column_short_first {
        Some(column_value) => matches_short(column_value, room, room_cutted),
        None => false,
    };
    let is_short_second = match &build_result.column_short_second {
        Some(column_value) => matches_short(column_value, room, room_cutted),
        None => false,
    };
    match classify(is_long, is_short_first, is_short_second) {
        Some(cable_type) => Some(Cable { index: build_result.index.clone(), cable_type }),
        None => None,
    }
}

/// Whether the row carries the marker of the records that are left out.
pub fn is_excluded_row(row: &Vec<Cell>) -> (excluded: bool)
    ensures
        excluded == is_excluded(row.deep_view()),
{
    proof {
        reveal_strlit("ПМЛ");
    }
    assert("ПМЛ"@ =~= excluded_marker());
    match text_at(row, MARKER_COLUMN) {
        Some(value) => {
            let marker = String::from_str("ПМЛ");
            *value == marker
        },
        None => false,
    }
}

/// The view of an answer of the lookup.
pub open spec fn answer_view(answer: Result<Vec<Cable>, &'static str>) -> Result<
    Seq<CableView>,
    Seq<char>,
> {
    match answer {
        Ok(cables) => Ok(cables.deep_view()),
        Err(message) => Err(message@),
    }
}

/// Finds the cables that pass through or end in `room`.
///
/// Every row of the sheet that does not carry the excluded marker is read and held
/// against the room; the cables come in the order of their rows. Where no row
/// gives a cable the answer is the message that nothing was found.
pub fn get_all_cables_in_room(room: String, sheet: &Table) -> (answer: Result<
    Vec<Cable>,
    &'static str,
>)
    ensures
        answer_view(answer) == lookup(sheet@, room@),
        answer is Ok <==> cables_in(sheet@, room@).len() > 0,
{
    let mut new_cables_list: Vec<Cable> = Vec::new();
    let room_cutted = cut_leading_zero(&room);
    let mut i: usize = 0;
    assert(sheet@.take(0) =~= Seq::<RowView>::empty());
    assert(new_cables_list.deep_view() =~= cables_in(sheet@.take(0), room@));
    while i < sheet.rows.len()
        invariant
            i <= sheet.rows.len(),
            room_cutted@ == cut_room(room@),
            new_cables_list.deep_view() == cables_in(sheet@.take(i as int), room@),
        decreases sheet.rows.len() - i,
    {
        let row = &sheet.rows[i];
        let ghost before = new_cables_list.deep_view();
        assert(sheet@.take(i + 1).drop_last() =~= sheet@.take(i as int));
        assert(sheet@.take(i + 1).last() == row.deep_view());
        if !is_excluded_row(row) {
            let build_result = parse_row(row);
            match classify_row(&build_result, &room, &room_cutted) {
                Some(cable) => {
                    new_cables_list.push(cable);
                    assert(new_cables_list.deep_view() =~= before.push(cable.deep_view()));
                },
                None => {},
            }
        }
        i += 1;
    }
    assert(sheet@.take(i as int) =~= sheet@);
    if new_cables_list.len() == 0 {
        Err("Совпадений не найдено, попробуйте поменять буквы с латинских на русские, или наоборот")
    } else {
        Ok(new_cables_list)
    }
}

} // verus!

use room_cables::cell::{text_at, Cell, Table};
use room_cables::parse::{parse_column, parse_row, ParseResult, ParseRowResult};
use room_cables::split::keep_room_tokens;

fn text(value: &str) -> Cell {
    Cell::Text(value.to_string())
}

fn strings(values: &[&str]) -> Vec<String> {
    values.iter().map(|value| value.to_string()).collect()
}

fn row_with(cells: &[(usize, Cell)]) -> Vec<Cell> {
    let mut row = vec![Cell::Other; 15];
    for (column, cell) in cells {
        row[*column] = cell.clone();
    }
    row
}

#[test]
fn new_row_result_is_blank() {
    let fresh = ParseRowResult::new();
    assert_eq!(fresh.index, "");
    assert_eq!(fresh.column_long, None);
    assert_eq!(fresh.column_short_first, None);
    assert_eq!(fresh.column_short_second, None);
}

#[test]
fn table_keeps_its_rows() {
    let rows = vec![vec![text("a"), Cell::Int(1)], vec![], vec![Cell::Other]];
    let table = Table::new(rows.clone());
    assert_eq!(table.rows, rows);
}

#[test]
fn text_at_reads_text_cells_only() {
    let row = vec![text("K-1"), Cell::Int(5), Cell::Float("5.5".to_string()), Cell::Other];
    assert_eq!(text_at(&row, 0), Some(&"K-1".to_string()));
    assert_eq!(text_at(&row, 1), None);
    assert_eq!(text_at(&row, 2), None);
    assert_eq!(text_at(&row, 3), None);
    assert_eq!(text_at(&row, 4), None);
}

#[test]
fn keep_room_tokens_keeps_five_characters_in_order() {
    let pieces = strings(&["", "12345", "1234", "67890", "123456", "", "ABCDE"]);
    assert_eq!(keep_room_tokens(pieces), strings(&["12345", "67890", "ABCDE"]));
}

#[test]
fn keep_room_tokens_counts_characters_not_bytes() {
    let pieces = strings(&["07А10", "07A1", "ПМЛ12", "абвгдж"]);
    assert_eq!(keep_room_tokens(pieces), strings(&["07А10", "ПМЛ12"]));
}

#[test]
fn keep_room_tokens_of_nothing_is_nothing() {
    assert_eq!(keep_room_tokens(Vec::new()), Vec::<String>::new());
}

#[test]
fn long_column_is_cut_at_spaces_brackets_and_semicolons() {
    let row = row_with(&[(9, text("(12345) 67890;11111(22222)33333 4444;555555"))]);
    assert_eq!(
        parse_column(&row, 9),
        Ok(ParseResult::ParseList(strings(&["12345", "67890", "11111", "22222", "33333"])))
    );
}

#[test]
fn long_column_keeps_other_punctuation_inside_tokens() {
    let row = row_with(&[(9, text("12,45 1234,5678 ab-cd 1\t345 12\t345"))]);
    assert_eq!(
        parse_column(&row, 9),
        Ok(ParseResult::ParseList(strings(&["12,45", "ab-cd", "1\t345"])))
    );
}

#[test]
fn long_column_without_tokens_is_an_empty_list() {
    let row = row_with(&[(9, text("no room here"))]);
    assert_eq!(parse_column(&row, 9), Ok(ParseResult::ParseList(Vec::new())));
    let row = row_with(&[(9, text(""))]);
    assert_eq!(parse_column(&row, 9), Ok(ParseResult::ParseList(Vec::new())));
}

#[test]
fn long_column_that_is_not_text_is_empty() {
    for cell in [Cell::Int(12345), Cell::Float("12345".to_string()), Cell::Other] {
        let row = row_with(&[(9, cell)]);
        assert_eq!(parse_column(&row, 9), Err("Empty".to_string()));
    }
}

#[test]
fn short_columns_read_text_and_numbers() {
    for column in [11usize, 14usize] {
        let row = row_with(&[(column, text("07A10"))]);
        assert_eq!(parse_column(&row, column), Ok(ParseResult::ParseSingle("07A10".to_string())));
        let row = row_with(&[(column, Cell::Int(7890))]);
        assert_eq!(parse_column(&row, column), Ok(ParseResult::ParseSingle("7890".to_string())));
        let row = row_with(&[(column, Cell::Int(-12))]);
        assert_eq!(parse_column(&row, column), Ok(ParseResult::ParseSingle("-12".to_string())));
        let row = row_with(&[(column, Cell::Float("10115".to_string()))]);
        assert_eq!(parse_column(&row, column), Ok(ParseResult::ParseSingle("10115".to_string())));
        let row = row_with(&[(column, Cell::Other)]);
        assert_eq!(parse_column(&row, column), Err("Empty".to_string()));
    }
}

#[test]
fn short_column_text_is_not_cut() {
    let row = row_with(&[(11, text("(12345) 67890"))]);
    assert_eq!(
        parse_column(&row, 11),
        Ok(ParseResult::ParseSingle("(12345) 67890".to_string()))
    );
}

#[test]
fn other_columns_are_wrong() {
    let row = row_with(&[(0, text("K-1")), (2, text("A")), (10, text("12345"))]);
    for column in [0usize, 1, 2, 8, 10, 12, 13, 15, 100] {
        assert_eq!(parse_column(&row, column), Err("Wrong column".to_string()));
    }
}

#[test]
fn columns_beyond_a_short_row_are_empty() {
    let row = vec![text("K-1"), Cell::Other, text("A")];
    assert_eq!(parse_column(&row, 9), Err("Empty".to_string()));
    assert_eq!(parse_column(&row, 11), Err("Empty".to_string()));
    assert_eq!(parse_column(&row, 14), Err("Empty".to_string()));
    assert_eq!(parse_column(&row, 3), Err("Wrong column".to_string()));
}

#[test]
fn parse_row_reads_all_fields() {
    let row = row_with(&[
        (0, text("K-17")),
        (9, text("(12345);67890 1")),
        (11, Cell::Int(7890)),
        (14, text("10115")),
    ]);
    assert_eq!(
        parse_row(&row),
        ParseRowResult {
            index: "K-17".to_string(),
            column_long: Some(strings(&["12345", "67890"])),
            column_short_first: Some("7890".to_string()),
            column_short_second: Some("10115".to_string()),
        }
    );
}

#[test]
fn parse_row_names_a_missing_index_none() {
    let row = row_with(&[(0, Cell::Int(17)), (9, text("12345"))]);
    let parsed = parse_row(&row);
    assert_eq!(parsed.index, "None");
    assert_eq!(parsed.column_long, Some(strings(&["12345"])));
    assert_eq!(parsed.column_short_first, None);
    assert_eq!(parsed.column_short_second, None);
}

#[test]
fn parse_row_of_an_empty_row_has_no_field() {
    assert_eq!(
        parse_row(&Vec::new()),
        ParseRowResult {
            index: "None".to_string(),
            column_long: None,
            column_short_first: None,
            column_short_second: None,
        }
    );
}

#[test]
fn parse_row_keeps_good_fields_beside_bad_ones() {
    let row = row_with(&[(0, text("K-2")), (9, Cell::Int(12345)), (11, Cell::Other), (14, text("1"))]);
    assert_eq!(
        parse_row(&row),
        ParseRowResult {
            index: "K-2".to_string(),
            column_long: None,
            column_short_first: None,
            column_short_second: Some("1".to_string()),
        }
    );
}

#[test]
fn long_tokens_are_always_five_characters() {
    let texts = ["(12345) 67890", "1 22 333 4444 55555 666666", ";;;((()))   ", "абвгд(еёжзий)", ""];
    for long in texts {
        let parsed = parse_row(&row_with(&[(9, text(long))]));
        let rooms = parsed.column_long.unwrap();
        for room in rooms {
            assert_eq!(room.chars().count(), 5);
        }
    }
}

//! What holds of every lookup, proved from the rules of the model.

use crate::cell::RowView;
use crate::model::{
    cable_of, cables_in, classification, cut_room, extract, is_excluded, long_field,
    long_matches, lookup, row_cable, short_field_matches, short_matches, CableView,
};
use crate::parse::{answer_view, Cable, CableType};
use vstd::prelude::*;

verus! {

/// The cables of a table that is put together from two parts are the cables of the
/// first part followed by those of the second.
pub proof fn lemma_cables_of_joined_tables(first: Seq<RowView>, second: Seq<RowView>, room: Seq<char>)
    ensures
        cables_in(first + second, room) == cables_in(first, room) + cables_in(second, room),
    decreases second.len(),
{
    if second.len() == 0 {
        assert(first + second =~= first);
        assert(cables_in(first, room) + cables_in(second, room) =~= cables_in(first, room));
    } else {
        assert((first + second).drop_last() =~= first + second.drop_last());
        assert((first + second).last() == second.last());
        lemma_cables_of_joined_tables(first, second.drop_last(), room);
        assert(cables_in(first + second, room) =~= cables_in(first, room) + cables_in(
            second,
            room,
        ));
    }
}

/// A row that carries the excluded marker gives no cable, whatever its other cells
/// hold and whatever room is asked for.
pub proof fn lemma_excluded_row_gives_no_cable(row: RowView, room: Seq<char>)
    requires
        is_excluded(row),
    ensures
        row_cable(row, room) is None,
{
}

/// Taking a row that carries the excluded marker out of the table changes no
/// answer.
pub proof fn lemma_excluded_row_changes_nothing(table: Seq<RowView>, at: int, room: Seq<char>)
    requires
        0 <= at < table.len(),
        is_excluded(table[at]),
    ensures
        cables_in(table.remove(at), room) == cables_in(table, room),
        lookup(table.remove(at), room) == lookup(table, room),
{
    let before = table.take(at);
    let marked = seq![table[at]];
    let after = table.skip(at + 1);
    assert(table =~= before + marked + after);
    assert(table.remove(at) =~= before + after);
    lemma_cables_of_joined_tables(before, marked, room);
    lemma_cables_of_joined_tables(before + marked, after, room);
    lemma_cables_of_joined_tables(before, after, room);
    assert(marked.drop_last() =~= Seq::<RowView>::empty());
    assert(cables_in(marked, room) =~= Seq::<CableView>::empty()) by {
        reveal_with_fuel(cables_in, 2);
    }
    assert(cables_in(before, room) + cables_in(marked, room) =~= cables_in(before, room));
}

/// The kind of cable for every combination of the three matches: the long-form
/// match alone is a transit, together with a short-form match a magistral, a
/// short-form match alone a local cable, and no match no cable.
pub proof fn lemma_classification_table(is_long: bool, is_short_first: bool, is_short_second: bool)
    ensures
        is_long && !(is_short_first || is_short_second) ==> classification(
            is_long,
            is_short_first,
            is_short_second,
        ) == Some(CableType::Transit),
        is_long && (is_short_first || is_short_second) ==> classification(
            is_long,
            is_short_first,
            is_short_second,
        ) == Some(CableType::Magistral),
        !is_long && (is_short_first || is_short_second) ==> classification(
            is_long,
            is_short_first,
            is_short_second,
        ) == Some(CableType::Local),
        !is_long && !(is_short_first || is_short_second) ==> classification(
            is_long,
            is_short_first,
            is_short_second,
        ) is None,
{
}

/// A row adds a cable to the answer exactly when it does not carry the excluded
/// marker and at least one of its three fields names the room; the cable then has
/// the identifier of the row. A row without a match adds nothing.
pub proof fn lemma_row_contribution(rows: Seq<RowView>, row: RowView, room: Seq<char>)
    ensures
        row_cable(row, room) is Some <==> !is_excluded(row) && (long_matches(
            extract(row).column_long,
            room,
        ) || short_field_matches(extract(row).column_short_first, room, cut_room(room))
            || short_field_matches(extract(row).column_short_second, room, cut_room(room))),
        row_cable(row, room) matches Some(cable) ==> cable.index == extract(row).index
            && cables_in(rows.push(row), room) == cables_in(rows, room).push(cable),
        row_cable(row, room) is None ==> cables_in(rows.push(row), room) == cables_in(rows, room),
{
    assert(rows.push(row).drop_last() =~= rows);
}

/// A short-form field of five characters names the room only where it equals the
/// room as asked; a field of any other length only where it equals the room
/// without one leading zero. A room that does not start with a zero is never cut.
pub proof fn lemma_short_field_rule(field: Seq<char>, room: Seq<char>)
    ensures
        field.len() == 5 ==> (short_matches(field, room, cut_room(room)) <==> field == room),
        field.len() != 5 ==> (short_matches(field, room, cut_room(room)) <==> field == cut_room(
            room,
        )),
        room.len() > 0 && room[0] == '0' ==> room == seq!['0'] + cut_room(room),
        !(room.len() > 0 && room[0] == '0') ==> cut_room(room) == room,
{
    if room.len() > 0 && room[0] == '0' {
        assert(room =~= seq!['0'] + cut_room(room));
    }
}

/// Every token of the long-form field of a row is five characters long.
pub proof fn lemma_long_field_tokens(row: RowView)
    ensures
        long_field(row) matches Some(rooms) ==> forall|i: int|
            0 <= i < rooms.len() ==> (#[trigger] rooms[i]).len() == 5,
{
    broadcast use Seq::lemma_filter_pred;

}

/// The long-form field is held against the room as asked, never against its cut
/// form: whether it matches does not depend on the cut form, and a room that is
/// not five characters long matches no long-form field.
pub proof fn lemma_long_field_rule(row: RowView, room: Seq<char>, room_cutted: Seq<char>)
    ensures
        cable_of(extract(row), room, room_cutted) matches Some(cable) ==> (cable.cable_type
            != CableType::Local <==> long_matches(long_field(row), room)),
        long_matches(long_field(row), room) ==> room.len() == 5,
{
    lemma_long_field_tokens(row);
    if long_matches(long_field(row), room) {
        let rooms = long_field(row)->Some_0;
        let at = choose|i: int| 0 <= i < rooms.len() && rooms[i] == room;
        assert(rooms[at].len() == 5);
    }
}

/// The positions of the rows of `table` that give a cable for `room`, from the top
/// of the table down.
pub open spec fn matching_rows(table: Seq<RowView>, room: Seq<char>) -> Seq<int>
    decreases table.len(),
{
    if table.len() == 0 {
        Seq::empty()
    } else {
        let before = matching_rows(table.drop_last(), room);
        if row_cable(table.last(), room) is Some {
            before.push(table.len() - 1)
        } else {
            before
        }
    }
}

/// The answer keeps the order of the table: its cables are those of the rows that
/// give one, each row once, from the top of the table down.
pub proof fn lemma_cables_keep_row_order(table: Seq<RowView>, room: Seq<char>)
    ensures
        cables_in(table, room).len() == matching_rows(table, room).len(),
        forall|k: int|
            0 <= k < matching_rows(table, room).len() ==> {
                let at = #[trigger] matching_rows(table, room)[k];
                0 <= at < table.len() && row_cable(table[at], room) == Some(
                    cables_in(table, room)[k],
                )
            },
        forall|j: int, k: int|
            0 <= j < k < matching_rows(table, room).len() ==> matching_rows(table, room)[j]
                < matching_rows(table, room)[k],
        forall|at: int|
            0 <= at < table.len() && row_cable(#[trigger] table[at], room) is Some
                ==> matching_rows(table, room).contains(at),
    decreases table.len(),
{
    if table.len() > 0 {
        let rest = table.drop_last();
        lemma_cables_keep_row_order(rest, room);
        let rows = matching_rows(table, room);
        let before = matching_rows(rest, room);
        assert forall|at: int|
            0 <= at < table.len() && row_cable(#[trigger] table[at], room) is Some implies rows.contains(
            at,
        ) by {
            if at < table.len() - 1 {
                assert(rest[at] == table[at]);
                assert(before.contains(at));
                let k = choose|k: int| 0 <= k < before.len() && before[k] == at;
                assert(rows[k] == at);
            } else {
                assert(rows[rows.len() - 1] == at);
            }
        }
        assert forall|k: int| 0 <= k < rows.len() implies {
            let at = #[trigger] rows[k];
            0 <= at < table.len() && row_cable(table[at], room) == Some(cables_in(table, room)[k])
        } by {
            if k < before.len() {
                assert(rows[k] == before[k]);
                assert(rest[before[k]] == table[before[k]]);
            }
        }
    }
}

/// Asking twice gives the same answer: two answers to the same room on the same
/// table hold the same cables in the same order, or are both the same message.
pub proof fn lemma_lookup_repeats(
    first: Result<Vec<Cable>, &'static str>,
    second: Result<Vec<Cable>, &'static str>,
    table: Seq<RowView>,
    room: Seq<char>,
)
    requires
        answer_view(first) == lookup(table, room),
        answer_view(second) == lookup(table, room),
    ensures
        answer_view(first) == answer_view(second),
        first is Ok <==> second is Ok,
{
}

} // verus!

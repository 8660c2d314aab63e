//! The answer as text: one line for each cable, in messages of at most twenty lines.

use crate::model::CableView;
use crate::parse::Cable;
use vstd::prelude::*;
use vstd::string::StringExecFns;

verus! {

/// The number of lines that one message holds at most.
pub const LINES_PER_MESSAGE: usize = 20;

/// The words between the identifier of a cable and its kind.
pub open spec fn line_link() -> Seq<char> {
    seq![' ', 'i', 's', ' ']
}

/// The end of a line: a space and a line feed.
pub open spec fn line_end() -> Seq<char> {
    seq![' ', '\n']
}

/// The line of one cable: its identifier, the word `is`, its kind.
pub open spec fn line_of(cable: CableView) -> Seq<char> {
    cable.index + line_link() + cable.cable_type.name() + line_end()
}

/// The lines of the cables, one after the other.
pub open spec fn lines_of(cables: Seq<CableView>) -> Seq<char>
    decreases cables.len(),
{
    if cables.len() == 0 {
        Seq::empty()
    } else {
        lines_of(cables.drop_last()) + line_of(cables.last())
    }
}

/// The number of messages that an answer of `cables` cables takes: one for every
/// twenty cables begun, and one empty message for no cable.
pub open spec fn message_count(cables: nat) -> nat {
    if cables == 0 {
        1
    } else {
        (cables + LINES_PER_MESSAGE - 1) as nat / (LINES_PER_MESSAGE as nat)
    }
}

/// The cables whose lines stand in the message at position `at`.
pub open spec fn message_cables(cables: Seq<CableView>, at: int) -> Seq<CableView> {
    let from = at * LINES_PER_MESSAGE;
    let to = if from + LINES_PER_MESSAGE <= cables.len() {
        from + LINES_PER_MESSAGE
    } else {
        cables.len() as int
    };
    cables.subrange(from, to)
}

/// The messages of an answer: the lines of the cables in their order, twenty to a
/// message, the last message with what is left.
pub open spec fn messages_of(cables: Seq<CableView>) -> Seq<Seq<char>> {
    Seq::new(message_count(cables.len()), |at: int| lines_of(message_cables(cables, at)))
}

/// How the cables are dealt out to the messages: every message but the last holds
/// twenty of them, the last holds the rest and at least one where there is any, and
/// the cable at position `k` of the message at position `at` is the cable at
/// position `at * 20 + k` of the answer.
pub proof fn lemma_message_cables(cables: Seq<CableView>, at: int)
    requires
        0 <= at < message_count(cables.len()),
    ensures
        message_cables(cables, at).len() <= LINES_PER_MESSAGE,
        at + 1 < message_count(cables.len()) ==> message_cables(cables, at).len()
            == LINES_PER_MESSAGE,
        at + 1 == message_count(cables.len()) ==> message_cables(cables, at).len() == cables.len()
            - at * LINES_PER_MESSAGE,
        cables.len() > 0 ==> message_cables(cables, at).len() > 0,
        forall|k: int|
            0 <= k < message_cables(cables, at).len() ==> #[trigger] message_cables(cables, at)[k]
                == cables[at * LINES_PER_MESSAGE + k],
{
}

/// Writes the line of one cable.
pub fn render_line(cable: &Cable) -> (line: String)
    ensures
        line@ == line_of(cable.deep_view()),
{
    proof {
        reveal_strlit(" is ");
        reveal_strlit(" \n");
    }
    assert(" is "@ =~= line_link());
    assert(" \n"@ =~= line_end());
    let mut line = cable.index.clone();
    line.append(" is ");
    line.append(cable.cable_type.to_string().as_str());
    line.append(" \n");
    line
}

/// Writes the answer as messages of at most twenty lines each.
pub fn render_messages(cables: &Vec<Cable>) -> (messages: Vec<String>)
    ensures
        messages.deep_view() == messages_of(cables.deep_view()),
{
    let mut messages: Vec<String> = Vec::new();
    let mut current = String::new();
    let mut counter: usize = 0;
    let mut i: usize = 0;
    let ghost all = cables.deep_view();
    assert(all.subrange(0, 0) =~= Seq::<CableView>::empty());
    while i < cables.len()
        invariant
            i <= cables.len(),
            all == cables.deep_view(),
            counter <= LINES_PER_MESSAGE,
            i == messages.len() * LINES_PER_MESSAGE + counter,
            i > 0 ==> counter > 0,
            forall|at: int|
                0 <= at < messages.len() ==> #[trigger] messages[at]@ == lines_of(
                    message_cables(all, at),
                ),
            current@ == lines_of(all.subrange(messages.len() * LINES_PER_MESSAGE, i as int)),
        decreases cables.len() - i,
    {
        if counter >= LINES_PER_MESSAGE {
            let ghost full = messages.len() as int;
            assert(message_cables(all, full) =~= all.subrange(full * LINES_PER_MESSAGE, i as int));
            messages.push(current);
            current = String::new();
            counter = 0;
            assert(all.subrange(i as int, i as int) =~= Seq::<CableView>::empty());
        }
        let ghost from = messages.len() * LINES_PER_MESSAGE;
        assert(all.subrange(from, i + 1).drop_last() =~= all.subrange(from, i as int));
        assert(all.subrange(from, i + 1).last() == cables[i as int].deep_view());
        let ghost before = current@;
        assert(before == lines_of(all.subrange(from, i as int)));
        let line = render_line(&cables[i]);
        current.append(line.as_str());
        assert(lines_of(all.subrange(from, i + 1)) == before + line@);
        counter += 1;
        i += 1;
    }
    let ghost last = messages.len() as int;
    assert(message_cables(all, last) =~= all.subrange(last * LINES_PER_MESSAGE, i as int));
    messages.push(current);
    assert(messages.deep_view() =~= messages_of(all));
    messages
}

} // verus!

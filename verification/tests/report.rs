use room_cables::parse::{Cable, CableType};
use room_cables::report::{render_line, render_messages};

fn cables(count: usize) -> Vec<Cable> {
    let kinds = [CableType::Magistral, CableType::Transit, CableType::Local];
    (0..count)
        .map(|at| Cable { index: format!("K-{}", at), cable_type: kinds[at % 3] })
        .collect()
}

fn lines(from: usize, to: usize) -> String {
    let names = ["Magistral", "Transit", "Local"];
    (from..to).map(|at| format!("K-{} is {} \n", at, names[at % 3])).collect()
}

#[test]
fn line_of_a_cable() {
    let cable = Cable { index: "K-1".to_string(), cable_type: CableType::Transit };
    assert_eq!(render_line(&cable), "K-1 is Transit \n");
    let cable = Cable { index: String::new(), cable_type: CableType::Local };
    assert_eq!(render_line(&cable), " is Local \n");
    let cable = Cable { index: "ВК 12".to_string(), cable_type: CableType::Magistral };
    assert_eq!(render_line(&cable), "ВК 12 is Magistral \n");
}

#[test]
fn no_cable_is_one_empty_message() {
    assert_eq!(render_messages(&Vec::new()), vec![String::new()]);
}

#[test]
fn few_cables_are_one_message() {
    assert_eq!(render_messages(&cables(1)), vec![lines(0, 1)]);
    assert_eq!(render_messages(&cables(3)), vec![lines(0, 3)]);
    assert_eq!(render_messages(&cables(20)), vec![lines(0, 20)]);
}

#[test]
fn twenty_lines_to_a_message() {
    assert_eq!(render_messages(&cables(21)), vec![lines(0, 20), lines(20, 21)]);
    assert_eq!(render_messages(&cables(40)), vec![lines(0, 20), lines(20, 40)]);
    assert_eq!(render_messages(&cables(41)), vec![lines(0, 20), lines(20, 40), lines(40, 41)]);
}

#[test]
fn messages_hold_every_line_once() {
    for count in [0usize, 1, 19, 20, 21, 59, 60, 61, 100] {
        let messages = render_messages(&cables(count));
        assert_eq!(messages.len(), if count == 0 { 1 } else { (count + 19) / 20 });
        assert_eq!(messages.concat(), lines(0, count));
        for message in &messages {
            assert!(message.lines().count() <= 20);
        }
    }
}

use cliff::{choice_from_normalized, confirm_action, read_choice, Choice};

#[test]
fn auto_confirm_approves_without_answer() {
    assert_eq!(confirm_action(true, Choice::No), (true, true));
    assert_eq!(confirm_action(true, Choice::Yes), (true, true));
}

#[test]
fn yes_approves_once() {
    assert_eq!(confirm_action(false, Choice::Yes), (false, true));
}

#[test]
fn all_turns_auto_confirm_on() {
    assert_eq!(confirm_action(false, Choice::All), (true, true));
}

#[test]
fn anything_else_skips() {
    assert_eq!(confirm_action(false, Choice::No), (false, false));
}

#[test]
fn answers_are_read_without_case_or_spaces() {
    assert_eq!(read_choice("y\n"), Choice::Yes);
    assert_eq!(read_choice("  YES  "), Choice::Yes);
    assert_eq!(read_choice("A"), Choice::All);
    assert_eq!(read_choice("All\r\n"), Choice::All);
    assert_eq!(read_choice("n"), Choice::No);
    assert_eq!(read_choice(""), Choice::No);
    assert_eq!(read_choice("yess"), Choice::No);
}

#[test]
fn normalized_answers_map_exactly() {
    assert_eq!(choice_from_normalized("y"), Choice::Yes);
    assert_eq!(choice_from_normalized("yes"), Choice::Yes);
    assert_eq!(choice_from_normalized("a"), Choice::All);
    assert_eq!(choice_from_normalized("all"), Choice::All);
    assert_eq!(choice_from_normalized("Y"), Choice::No);
    assert_eq!(choice_from_normalized(" y"), Choice::No);
}

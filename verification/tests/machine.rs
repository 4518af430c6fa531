use gamble_sim::gamble_f::{ConstructionError, GambleAction, GambleF};

fn machine(code: &str) -> GambleF {
    match GambleF::new(code) {
        Ok(m) => m,
        Err(e) => panic!("{:?} for {:?}", e, code),
    }
}

fn run(m: &mut GambleF, steps: usize) {
    for _ in 0..steps {
        assert!(m.can_tick());
        assert_eq!(m.tick(), None);
    }
}

#[test]
fn balanced_programs_are_accepted() {
    for code in ["", "+-<>.,", "[]", "[[]]", "[][]", "][", "]][[", "]+[", "a[b]c", "[.+]+"] {
        assert!(GambleF::new(code).is_ok(), "{:?}", code);
    }
}

#[test]
fn unbalanced_programs_are_turned_down() {
    for code in ["[", "]", "[[]", "[]]", "]]", "[[", "+[.+", "+.+]", "[[[]]"] {
        match GambleF::new(code) {
            Err(e) => assert_eq!(e, ConstructionError::UnbalancedBrackets),
            Ok(_) => panic!("{:?} was accepted", code),
        }
    }
}

#[test]
fn a_new_machine_starts_at_zero() {
    let mut m = machine(".>.<<.");
    assert_eq!(m.get_code_pointer(), 0);
    assert_eq!(m.tick(), Some(GambleAction::Bet(0)));
    assert_eq!(m.tick(), None);
    assert_eq!(m.tick(), Some(GambleAction::Bet(0)));
    assert_eq!(m.tick(), None);
    assert_eq!(m.tick(), None);
    assert_eq!(m.tick(), Some(GambleAction::Bet(0)));
}

#[test]
fn left_of_the_first_cell_is_the_last_cell() {
    // cell 0 holds 7; `<` leaves it, `+` marks the cell reached
    let code = format!("<+>.{}.", ">".repeat(255));
    let mut m = machine(&code);
    m.balance(7);
    run(&mut m, 3);
    assert_eq!(m.tick(), Some(GambleAction::Bet(7)));
    run(&mut m, 255);
    assert_eq!(m.tick(), Some(GambleAction::Bet(1)));
}

#[test]
fn right_of_the_last_cell_is_the_first_cell() {
    let code = format!("{}.>.", ">".repeat(255));
    let mut m = machine(&code);
    m.balance(7);
    run(&mut m, 255);
    assert_eq!(m.tick(), Some(GambleAction::Bet(0)));
    assert_eq!(m.tick(), None);
    assert_eq!(m.tick(), Some(GambleAction::Bet(7)));
}

#[test]
fn a_full_turn_of_the_pointer_comes_back() {
    let code = format!("{}.", ">".repeat(256));
    let mut m = machine(&code);
    m.balance(9);
    run(&mut m, 256);
    assert_eq!(m.tick(), Some(GambleAction::Bet(9)));
}

#[test]
fn a_cell_at_its_largest_value_increments_to_zero() {
    let mut m = machine("+.");
    m.balance(usize::MAX);
    assert_eq!(m.tick(), None);
    assert_eq!(m.tick(), Some(GambleAction::Bet(0)));
}

#[test]
fn a_cell_at_zero_decrements_to_its_largest_value() {
    let mut m = machine("-.");
    assert_eq!(m.tick(), None);
    assert_eq!(m.tick(), Some(GambleAction::Bet(usize::MAX)));
}

#[test]
fn increment_and_decrement_change_the_cell_by_one() {
    let mut m = machine("+++.-.");
    run(&mut m, 3);
    assert_eq!(m.tick(), Some(GambleAction::Bet(3)));
    assert_eq!(m.tick(), None);
    assert_eq!(m.tick(), Some(GambleAction::Bet(2)));
}

#[test]
fn open_bracket_over_zero_skips_the_loop() {
    let mut m = machine("[+]");
    assert!(m.can_tick());
    assert_eq!(m.tick(), None);
    assert_eq!(m.get_code_pointer(), 3);
}

#[test]
fn a_skipped_loop_body_is_not_run() {
    let mut m = machine("[+].");
    assert_eq!(m.tick(), None);
    assert_eq!(m.get_code_pointer(), 3);
    assert_eq!(m.tick(), Some(GambleAction::Bet(0)));
}

#[test]
fn a_skip_finds_the_partner_of_a_nested_loop() {
    let mut m = machine("[+[-]+].");
    assert_eq!(m.tick(), None);
    assert_eq!(m.get_code_pointer(), 7);
    assert_eq!(m.tick(), Some(GambleAction::Bet(0)));
}

#[test]
fn open_bracket_over_a_nonzero_cell_falls_through() {
    let mut m = machine("+[.+]");
    assert_eq!(m.tick(), None);
    assert_eq!(m.get_code_pointer(), 1);
    assert_eq!(m.tick(), None);
    assert_eq!(m.get_code_pointer(), 2);
    assert_eq!(m.tick(), Some(GambleAction::Bet(1)));
}

#[test]
fn the_loop_bets_once_per_pass_and_raises_the_cell() {
    let mut m = machine("+[.+]");
    run(&mut m, 2);
    for pass in 1..=50usize {
        assert_eq!(m.get_code_pointer(), 2);
        assert_eq!(m.tick(), Some(GambleAction::Bet(pass)));
        assert_eq!(m.tick(), None);
        assert_eq!(m.get_code_pointer(), 4);
        assert_eq!(m.tick(), None);
    }
}

#[test]
fn close_bracket_jumps_back_behind_its_partner() {
    let mut m = machine("+[.+]");
    run(&mut m, 2);
    assert_eq!(m.tick(), Some(GambleAction::Bet(1)));
    assert_eq!(m.tick(), None);
    assert_eq!(m.get_code_pointer(), 4);
    assert_eq!(m.tick(), None);
    assert_eq!(m.get_code_pointer(), 2);
}

#[test]
fn close_bracket_jumps_back_whatever_the_cell_holds() {
    // the last pass wraps the cell to zero; the jump back is still taken
    let mut m = machine("+[.+]");
    run(&mut m, 2);
    m.balance(usize::MAX);
    assert_eq!(m.tick(), Some(GambleAction::Bet(usize::MAX)));
    assert_eq!(m.tick(), None);
    assert_eq!(m.tick(), None);
    assert_eq!(m.get_code_pointer(), 2);
    assert_eq!(m.tick(), Some(GambleAction::Bet(0)));
}

#[test]
fn close_bracket_finds_the_partner_of_a_nested_loop() {
    let mut m = machine("+[[]-]");
    run(&mut m, 3);
    // the inner pair: back behind the inner `[`
    assert_eq!(m.get_code_pointer(), 3);
    assert_eq!(m.tick(), None);
    assert_eq!(m.get_code_pointer(), 3);
}

#[test]
fn the_cursor_starts_over_at_the_end_of_the_program() {
    let mut m = machine(".,");
    for _ in 0..5 {
        assert_eq!(m.tick(), Some(GambleAction::Bet(0)));
        assert_eq!(m.get_code_pointer(), 1);
        assert_eq!(m.tick(), Some(GambleAction::RequestBalance));
        assert_eq!(m.get_code_pointer(), 2);
    }
}

#[test]
fn every_pass_hands_out_the_same_actions_while_the_tape_stays() {
    let mut m = machine(">.<,x.");
    m.balance(4);
    let mut first: Vec<Option<GambleAction>> = Vec::new();
    for _ in 0..6 {
        first.push(m.tick());
    }
    assert_eq!(
        first,
        vec![
            None,
            Some(GambleAction::Bet(0)),
            None,
            Some(GambleAction::RequestBalance),
            None,
            Some(GambleAction::Bet(4)),
        ]
    );
    assert_eq!(m.get_code_pointer(), 6);
    for _ in 0..10 {
        let mut pass: Vec<Option<GambleAction>> = Vec::new();
        for _ in 0..6 {
            pass.push(m.tick());
        }
        assert_eq!(pass, first);
    }
}

#[test]
fn a_bet_carries_the_cell_and_changes_nothing() {
    let mut m = machine("..>.<.");
    m.balance(42);
    assert_eq!(m.tick(), Some(GambleAction::Bet(42)));
    assert_eq!(m.get_code_pointer(), 1);
    assert_eq!(m.tick(), Some(GambleAction::Bet(42)));
    assert_eq!(m.tick(), None);
    assert_eq!(m.tick(), Some(GambleAction::Bet(0)));
    assert_eq!(m.tick(), None);
    assert_eq!(m.tick(), Some(GambleAction::Bet(42)));
}

#[test]
fn a_request_for_the_balance_leaves_the_cell() {
    let mut m = machine(",.");
    m.balance(5);
    assert_eq!(m.tick(), Some(GambleAction::RequestBalance));
    assert_eq!(m.get_code_pointer(), 1);
    assert_eq!(m.tick(), Some(GambleAction::Bet(5)));
}

#[test]
fn other_characters_do_nothing() {
    let mut m = machine("a b\n#.");
    m.balance(3);
    for at in 1..=5usize {
        assert_eq!(m.tick(), None);
        assert_eq!(m.get_code_pointer(), at);
    }
    assert_eq!(m.tick(), Some(GambleAction::Bet(3)));
}

#[test]
fn a_won_bet_reads_back_as_one() {
    let mut m = machine(".");
    m.balance(99);
    m.gamble_result(true);
    assert_eq!(m.tick(), Some(GambleAction::Bet(1)));
}

#[test]
fn a_lost_bet_reads_back_as_zero() {
    let mut m = machine(".");
    m.balance(99);
    m.gamble_result(false);
    assert_eq!(m.tick(), Some(GambleAction::Bet(0)));
}

#[test]
fn a_balance_reads_back_as_written() {
    for value in [0usize, 1, 12345, usize::MAX] {
        let mut m = machine(".");
        m.balance(value);
        assert_eq!(m.tick(), Some(GambleAction::Bet(value)));
    }
}

#[test]
fn feedback_goes_to_the_current_cell_only() {
    let mut m = machine(">.<.");
    m.balance(8);
    assert_eq!(m.tick(), None);
    assert_eq!(m.tick(), Some(GambleAction::Bet(0)));
    m.gamble_result(true);
    assert_eq!(m.tick(), None);
    assert_eq!(m.tick(), Some(GambleAction::Bet(8)));
    assert_eq!(m.get_code_pointer(), 4);
}

#[test]
fn the_program_reads_back_as_text() {
    for code in ["", "+[.+]", ",[>+<-]>.", "héllo [wörld] ✓"] {
        assert_eq!(machine(code).code_string(), code);
    }
}

#[test]
fn the_cursor_counts_characters_not_bytes() {
    let mut m = machine("é✓.");
    assert_eq!(m.tick(), None);
    assert_eq!(m.tick(), None);
    assert_eq!(m.get_code_pointer(), 2);
    assert_eq!(m.tick(), Some(GambleAction::Bet(0)));
    assert_eq!(m.get_code_pointer(), 3);
}

#[test]
fn an_empty_program_cannot_step() {
    assert!(!machine("").can_tick());
}

#[test]
fn a_close_bracket_without_partner_cannot_step() {
    assert!(!machine("][").can_tick());
    let mut m = machine("+][");
    assert!(m.can_tick());
    assert_eq!(m.tick(), None);
    assert!(!m.can_tick());
}

#[test]
fn a_close_bracket_behind_a_skipped_loop_cannot_step() {
    let mut m = machine("[]][");
    assert!(m.can_tick());
    assert_eq!(m.tick(), None);
    assert_eq!(m.get_code_pointer(), 2);
    assert!(!m.can_tick());
}

#[test]
fn a_well_nested_program_can_always_step() {
    let mut m = machine("+[>+[-]<.+]");
    for _ in 0..2000 {
        assert!(m.can_tick());
        m.tick();
        assert!(m.get_code_pointer() <= 11);
    }
}

#[test]
fn the_next_action_is_what_the_step_hands_out() {
    let mut m = machine("+.,-");
    for _ in 0..12 {
        let due = m.next_action();
        let at = m.get_code_pointer();
        assert_eq!(m.get_code_pointer(), at);
        assert_eq!(m.tick(), due);
    }
}

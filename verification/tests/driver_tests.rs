use simon_game::driver::Action;
use simon_game::driver::Game;
use simon_game::driver::PAUSE_MILLIS;
use simon_game::driver::Phase;
use simon_game::driver::set_all_active_then_reset;
use simon_game::panel::PanelId;

fn cycle(p: PanelId) -> Vec<Action> {
    vec![Action::MarkActive(p), Action::Wait, Action::MarkInactive(p)]
}

fn flash() -> Vec<Action> {
    vec![Action::MarkAllActive, Action::Wait, Action::MarkAllInactive, Action::Wait]
}

fn expected_intro() -> Vec<Action> {
    let mut acts = Vec::new();
    for p in [PanelId::Green, PanelId::Red, PanelId::Yellow, PanelId::Blue] {
        acts.extend(cycle(p));
    }
    acts.push(Action::Wait);
    for _ in 0..3 {
        acts.extend(flash());
    }
    acts
}

#[test]
fn pause_is_half_a_second() {
    assert_eq!(PAUSE_MILLIS, 500);
}

#[test]
fn all_panel_flash_is_the_fixed_block() {
    assert_eq!(set_all_active_then_reset(), flash());
}

#[test]
fn intro_is_the_fixed_script_in_order() {
    let mut game = Game::new();
    assert_eq!(game.current_phase(), Phase::Intro);
    assert_eq!(game.current_length(), 0);
    let acts = game.run_game_intro();
    assert_eq!(acts, expected_intro());
    assert_eq!(game.current_phase(), Phase::Playing);
    assert_eq!(game.current_length(), 0);
}

#[test]
fn intro_pair_counts_and_duration() {
    let mut game = Game::new();
    let acts = game.run_game_intro();
    let individual = acts
        .iter()
        .filter(|a| matches!(a, Action::MarkActive(_)))
        .count();
    let all_panel = acts.iter().filter(|a| matches!(a, Action::MarkAllActive)).count();
    let waits = acts.iter().filter(|a| matches!(a, Action::Wait)).count() as u64;
    assert_eq!(individual, 4);
    assert_eq!(all_panel, 3);
    assert_eq!(waits * PAUSE_MILLIS, 5_500);
}

#[test]
fn terminating_panel_first_ends_after_one_round() {
    let mut game = Game::new();
    let _ = game.run_game_intro();
    let acts = game.play_round(PanelId::Blue);
    assert_eq!(acts, cycle(PanelId::Blue));
    assert_eq!(game.current_length(), 1);
    assert_eq!(game.current_phase(), Phase::Ended);
}

#[test]
fn three_rounds_replay_in_order_then_end() {
    let mut game = Game::new();
    let _ = game.run_game_intro();

    let round1 = game.play_round(PanelId::Green);
    assert_eq!(round1, cycle(PanelId::Green));
    assert_eq!(game.current_phase(), Phase::Playing);

    let round2 = game.play_round(PanelId::Red);
    let mut expected2 = cycle(PanelId::Green);
    expected2.extend(cycle(PanelId::Red));
    assert_eq!(round2, expected2);
    assert_eq!(game.current_phase(), Phase::Playing);

    let round3 = game.play_round(PanelId::Blue);
    let mut expected3 = expected2.clone();
    expected3.extend(cycle(PanelId::Blue));
    assert_eq!(round3, expected3);
    assert_eq!(game.current_phase(), Phase::Ended);
    assert_eq!(game.current_length(), 3);
}

#[test]
fn random_rounds_replay_the_whole_sequence_until_blue() {
    let mut game = Game::new();
    let _ = game.run_game_intro();
    let mut rounds: usize = 0;
    while game.current_phase() == Phase::Playing {
        let acts = game.play_round_random();
        rounds += 1;
        assert_eq!(game.current_length(), rounds);
        // Each round replays one highlight cycle per panel of the sequence.
        assert_eq!(acts.len(), 3 * rounds);
        assert!(rounds <= 10_000, "session did not terminate plausibly");
    }
    assert_eq!(game.current_phase(), Phase::Ended);
    // The session ends in the round that drew the terminating panel.
    assert!(game.current_length() >= 1);
}

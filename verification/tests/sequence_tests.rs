use simon_game::panel::PanelId;
use simon_game::sequence::Sequence;
use simon_game::sequence::panel_of_index;
use simon_game::sequence::random_panel;

#[test]
fn new_sequence_is_empty() {
    let s = Sequence::new();
    assert_eq!(s.current_length(), 0);
}

#[test]
fn append_grows_by_one_and_keeps_prefix() {
    let mut s = Sequence::new();
    let rounds = [PanelId::Green, PanelId::Yellow, PanelId::Red, PanelId::Green, PanelId::Blue];
    for (n, p) in rounds.iter().enumerate() {
        s.append(*p);
        assert_eq!(s.current_length(), n + 1);
        for (i, earlier) in rounds.iter().take(n + 1).enumerate() {
            assert_eq!(s.panel_at(i), *earlier);
        }
    }
}

#[test]
fn append_random_grows_by_one_and_keeps_prefix() {
    let mut s = Sequence::new();
    let mut seen: Vec<PanelId> = Vec::new();
    for n in 0..50 {
        let p = s.append_random();
        seen.push(p);
        assert_eq!(s.current_length(), n + 1);
        for (i, earlier) in seen.iter().enumerate() {
            assert_eq!(s.panel_at(i), *earlier);
        }
    }
}

#[test]
fn panel_of_index_maps_the_four_indices() {
    assert_eq!(panel_of_index(0), PanelId::Green);
    assert_eq!(panel_of_index(1), PanelId::Red);
    assert_eq!(panel_of_index(2), PanelId::Yellow);
    assert_eq!(panel_of_index(3), PanelId::Blue);
}

#[test]
fn random_panel_frequencies_are_near_uniform() {
    let trials: u32 = 40_000;
    let mut counts = [0u32; 4];
    for _ in 0..trials {
        match random_panel() {
            PanelId::Green => counts[0] += 1,
            PanelId::Red => counts[1] += 1,
            PanelId::Yellow => counts[2] += 1,
            PanelId::Blue => counts[3] += 1,
        }
    }
    // Each panel is expected 10_000 times; the bound is over eleven standard
    // deviations wide, so a fair draw practically never fails it.
    for c in counts {
        assert!(c > 9_000, "panel drawn only {} times out of {}", c, trials);
        assert!(c < 11_000, "panel drawn {} times out of {}", c, trials);
    }
}

#[test]
fn append_random_draws_vary() {
    // A draw that ignored the random source would return one panel forever.
    let mut s = Sequence::new();
    let mut distinct = [false; 4];
    for _ in 0..1_000 {
        match s.append_random() {
            PanelId::Green => distinct[0] = true,
            PanelId::Red => distinct[1] = true,
            PanelId::Yellow => distinct[2] = true,
            PanelId::Blue => distinct[3] = true,
        }
    }
    assert!(distinct.iter().all(|d| *d));
}

use simon_game::binding::BindingError;
use simon_game::binding::ElementRole;
use simon_game::binding::GameElements;

#[test]
fn binding_succeeds_when_all_five_regions_exist() {
    let r = GameElements::new(
        Some("green"),
        Some("red"),
        Some("yellow"),
        Some("blue"),
        Some("score"),
    );
    let ge = r.expect("all five regions were present");
    assert_eq!(ge.green_button, "green");
    assert_eq!(ge.red_button, "red");
    assert_eq!(ge.yellow_button, "yellow");
    assert_eq!(ge.blue_button, "blue");
    assert_eq!(ge.score, "score");
}

#[test]
fn missing_score_region_fails_before_any_panel_is_used() {
    let r = GameElements::new(
        Some("green"),
        Some("red"),
        Some("yellow"),
        Some("blue"),
        None::<&str>,
    );
    assert_eq!(
        r.err(),
        Some(BindingError::MissingElement(ElementRole::UserScore))
    );
}

#[test]
fn each_missing_region_is_reported() {
    let cases = [
        (0, ElementRole::GreenButton),
        (1, ElementRole::RedButton),
        (2, ElementRole::YellowButton),
        (3, ElementRole::BlueButton),
        (4, ElementRole::UserScore),
    ];
    for (missing, role) in cases {
        let lookups: Vec<Option<u32>> = (0..5)
            .map(|i| if i == missing { None } else { Some(i as u32) })
            .collect();
        let r = GameElements::new(lookups[0], lookups[1], lookups[2], lookups[3], lookups[4]);
        assert_eq!(r.err(), Some(BindingError::MissingElement(role)));
    }
}

#[test]
fn first_missing_region_wins_in_fixed_order() {
    let r = GameElements::new(None::<u32>, Some(1), None, Some(3), None);
    assert_eq!(
        r.err(),
        Some(BindingError::MissingElement(ElementRole::GreenButton))
    );
}

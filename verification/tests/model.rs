use player_control::model::swap_model;
use player_control::model::CurrentPlayerModel;
use player_control::model::PlayerModelType;

#[test]
fn two_fresh_presses_cycle_back_to_donut() {
    let mut worn = CurrentPlayerModel(PlayerModelType::Donut);
    assert!(swap_model(&mut worn, true, false));
    assert_eq!(worn.0, PlayerModelType::Cube);
    assert!(swap_model(&mut worn, true, false));
    assert_eq!(worn.0, PlayerModelType::Donut);
}

#[test]
fn holding_swap_fires_only_once() {
    let mut worn = CurrentPlayerModel(PlayerModelType::Donut);
    // First tick of the hold: a rising edge, the swap fires.
    assert!(swap_model(&mut worn, true, false));
    assert_eq!(worn.0, PlayerModelType::Cube);
    // Still held on later ticks: no edge, no swap.
    assert!(!swap_model(&mut worn, true, true));
    assert_eq!(worn.0, PlayerModelType::Cube);
    assert!(!swap_model(&mut worn, true, true));
    assert_eq!(worn.0, PlayerModelType::Cube);
}

#[test]
fn released_swap_never_fires() {
    let mut worn = CurrentPlayerModel(PlayerModelType::Cube);
    assert!(!swap_model(&mut worn, false, false));
    assert_eq!(worn.0, PlayerModelType::Cube);
    assert!(!swap_model(&mut worn, false, true));
    assert_eq!(worn.0, PlayerModelType::Cube);
}

#[test]
fn other_is_an_involution() {
    assert_eq!(PlayerModelType::Donut.other(), PlayerModelType::Cube);
    assert_eq!(PlayerModelType::Cube.other(), PlayerModelType::Donut);
    assert_eq!(PlayerModelType::Donut.other().other(), PlayerModelType::Donut);
    assert_eq!(PlayerModelType::Cube.other().other(), PlayerModelType::Cube);
}

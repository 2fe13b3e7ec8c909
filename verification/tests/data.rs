use war_and_trade::app_manager::AppState;
use war_and_trade::errors::AppManagerInitErr;
use war_and_trade::game::common::GameSpeed;
use war_and_trade::game::data::GameData;
use war_and_trade::game::date::GameDate;
use war_and_trade::game_state::GameState;

#[test]
fn new_game_data() {
    let data = GameData::new();
    assert_eq!(data.civ_name(), "NO NAME");
    assert_eq!(*data.date(), GameDate::new(1, 1, 1));
}

#[test]
fn with_civ_name_starts_on_first_day() {
    let data = GameData::with_civ_name(String::from("Carthage"));
    assert_eq!(data.civ_name(), "Carthage");
    assert_eq!(*data.date(), GameDate::new(1, 1, 1));
}

#[test]
fn simulate_advances_the_date() {
    let mut data = GameData::new();
    data.simulate(45);
    assert_eq!(*data.date(), GameDate::new(1, 2, 6));
    data.simulate(355);
    assert_eq!(*data.date(), GameDate::new(2, 1, 1));
    assert_eq!(data.civ_name(), "NO NAME");
}

#[test]
fn clone_keeps_game_data() {
    let mut data = GameData::with_civ_name(String::from("Athens"));
    data.simulate(3);
    let copy = data.clone();
    assert_eq!(copy.civ_name(), "Athens");
    assert_eq!(*copy.date(), GameDate::new(1, 1, 4));
}

#[test]
fn new_game_state() {
    let state = GameState::new();
    assert!(!state.ongoing);
    assert_eq!(state.speed, GameSpeed::Paused);
    assert_eq!(state.game_data.civ_name(), "NO NAME");
    assert!(state.saved_games.is_empty());
}

#[test]
fn init_error_message() {
    assert_eq!(
        AppManagerInitErr::NetworkInterfaceCreation.message(),
        "Failed to create the server's network interface."
    );
}

#[test]
fn app_states_differ() {
    assert_ne!(AppState::Idle, AppState::GameRunning);
    assert_ne!(AppState::GameLoading, AppState::GameRunning);
}

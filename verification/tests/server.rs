use war_and_trade::game::common::GameSpeed;
use war_and_trade::game_manager::{GameManager, ServerAction, ITERATION_TIME, REFERENCE_TIME, SAVE_FILE_PATH};
use war_and_trade::protocol::cmd::{
    Cmd, DeleteSavedGamePld, LoadGamePld, NewGamePld, SaveGamePld, SetSpeedPld,
};
use war_and_trade::protocol::interface::ServerState;
use war_and_trade::protocol::tlm::{SavedGamesPld, Tlm};

/// One millisecond in nanoseconds.
const MS: u64 = 1_000_000;

fn manager_with_saves(names: &[&str]) -> GameManager<u32> {
    let mut m = GameManager::new(0u32);
    m.update_saved_files(names.iter().map(|n| Some(n.to_string())).collect());
    m
}

#[test]
fn constants() {
    assert_eq!(SAVE_FILE_PATH, "saved_games");
    assert_eq!(ITERATION_TIME, 25 * MS);
    assert_eq!(REFERENCE_TIME, 1000 * MS);
}

#[test]
fn new_manager() {
    let m = GameManager::new(5u32);
    assert!(!m.active);
    assert!(!m.state.game_running);
    assert_eq!(m.state.game_speed, GameSpeed::Paused);
    assert_eq!(m.state.game_state, 5);
    assert!(m.state.saved_games.saved_games.is_empty());
    assert_eq!(m.time_per_day, 0);
    assert_eq!(m.last_sim_time, 0);
}

#[test]
fn set_speed_sets_time_per_day() {
    let mut m = GameManager::new(0u32);
    let cases = [
        (GameSpeed::Speed1X, 1000 * MS),
        (GameSpeed::Speed2X, 500 * MS),
        (GameSpeed::Speed4X, 250 * MS),
        (GameSpeed::Speed10X, 100 * MS),
        (GameSpeed::Speed40X, 25 * MS),
        (GameSpeed::Paused, 0),
    ];
    for (speed, ms) in cases {
        let tlm = m.set_speed(speed);
        assert!(matches!(tlm, Tlm::SpeedChanged(s) if s == speed));
        assert_eq!(m.state.game_speed, speed);
        assert_eq!(m.time_per_day, ms);
    }
}

#[test]
fn new_game_asks_for_a_world() {
    let mut m = GameManager::new(0u32);
    let act = m.process_command(Cmd::NewGame(NewGamePld { civ_name: "Rome".to_string() }));
    assert!(matches!(act, ServerAction::CreateWorld(p) if p.civ_name == "Rome"));
    assert!(!m.state.game_running);
}

#[test]
fn save_game_composes_path() {
    let mut m = GameManager::new(0u32);
    let act = m.process_command(Cmd::SaveGame(SaveGamePld { name: "first".to_string() }));
    assert!(matches!(act, ServerAction::SaveWorld(p) if p == "saved_games/first.json"));
}

#[test]
fn request_saved_games_list() {
    let mut m = manager_with_saves(&["./saved_games/a.json", "./saved_games/b.json"]);
    let act = m.process_command(Cmd::ReqSavedGamesList);
    match act {
        ServerAction::Send(Tlm::SavedGames(list)) => assert_eq!(
            list.saved_games,
            vec!["./saved_games/a.json".to_string(), "./saved_games/b.json".to_string()]
        ),
        other => panic!("unexpected {:?}", other),
    }
}

#[test]
fn load_game_only_when_listed() {
    let mut m = manager_with_saves(&["./saved_games/a.json"]);
    let act = m.process_command(Cmd::LoadGame(LoadGamePld { name: "./saved_games/a.json".to_string() }));
    assert!(matches!(act, ServerAction::LoadWorld(p) if p == "./saved_games/a.json"));
    let act = m.process_command(Cmd::LoadGame(LoadGamePld { name: "./saved_games/z.json".to_string() }));
    assert!(matches!(act, ServerAction::Nothing));
    assert!(!m.state.game_running);
}

#[test]
fn delete_saved_game() {
    let mut m = GameManager::new(0u32);
    let act = m.process_command(Cmd::DeleteSavedGame(DeleteSavedGamePld { name: "x.json".to_string() }));
    assert!(matches!(act, ServerAction::DeleteSave(p) if p == "x.json"));
}

#[test]
fn set_speed_command() {
    let mut m = GameManager::new(0u32);
    let act = m.process_command(Cmd::SetSpeed(SetSpeedPld { speed: GameSpeed::Speed2X }));
    assert!(matches!(act, ServerAction::Send(Tlm::SpeedChanged(GameSpeed::Speed2X))));
    assert_eq!(m.time_per_day, 500 * MS);
}

#[test]
fn stop_game_and_close_server() {
    let mut m = GameManager::new(0u32);
    m.active = true;
    m.start_game(3);
    let act = m.process_command(Cmd::StopGame);
    assert!(matches!(act, ServerAction::Send(Tlm::GameStopped)));
    assert!(!m.state.game_running);
    assert!(m.active);
    let act = m.process_command(Cmd::CloseServer);
    assert!(matches!(act, ServerAction::Nothing));
    assert!(!m.active);
}

#[test]
fn start_game_runs_paused() {
    let mut m = GameManager::new(0u32);
    m.set_speed(GameSpeed::Speed10X);
    let tlms = m.start_game(42);
    assert_eq!(tlms.len(), 2);
    assert!(matches!(tlms[0], Tlm::SpeedChanged(GameSpeed::Paused)));
    assert!(matches!(tlms[1], Tlm::GameStarted));
    assert!(m.state.game_running);
    assert_eq!(m.state.game_speed, GameSpeed::Paused);
    assert_eq!(m.state.game_state, 42);
    assert_eq!(m.time_per_day, 0);
}

#[test]
fn simulate_waits_for_a_day() {
    let mut m = GameManager::new(0u32);
    m.start_game(1);
    assert!(!m.simulate(5000 * MS));
    m.set_speed(GameSpeed::Speed1X);
    assert!(!m.simulate(999 * MS));
    assert_eq!(m.last_sim_time, 0);
    assert!(m.simulate(1000 * MS));
    assert_eq!(m.last_sim_time, 1000 * MS);
    assert!(!m.simulate(1999 * MS));
    m.set_speed(GameSpeed::Speed40X);
    assert!(m.simulate(2025 * MS));
    assert_eq!(m.last_sim_time, 2025 * MS);
}

#[test]
fn simulate_only_while_a_game_runs() {
    let mut m = GameManager::new(0u32);
    m.set_speed(GameSpeed::Speed2X);
    assert!(!m.simulate(1000 * MS));
    assert_eq!(m.last_sim_time, 0);
    m.start_game(1);
    m.set_speed(GameSpeed::Speed2X);
    assert!(m.simulate(1000 * MS));
    m.process_command(Cmd::StopGame);
    assert!(!m.simulate(5000 * MS));
    assert_eq!(m.last_sim_time, 1000 * MS);
}

#[test]
fn update_saved_files_keeps_found_names() {
    let mut m = GameManager::new(0u32);
    m.update_saved_files(vec![Some("a".to_string()), None, Some("b".to_string())]);
    assert_eq!(m.state.saved_games.saved_games, vec!["a".to_string(), "b".to_string()]);
    m.update_saved_files(vec![]);
    assert!(m.state.saved_games.saved_games.is_empty());
}

#[test]
fn gui_follows_telemetries() {
    let mut gui = ServerState::new(0u32);
    assert!(!gui.game_running);
    gui.apply_telemetry(Tlm::GameStarted);
    assert!(gui.game_running);
    gui.apply_telemetry(Tlm::SpeedChanged(GameSpeed::Speed4X));
    assert_eq!(gui.game_speed, GameSpeed::Speed4X);
    gui.apply_telemetry(Tlm::GameState(9));
    assert_eq!(gui.game_state, 9);
    gui.apply_telemetry(Tlm::SavedGames(SavedGamesPld { saved_games: vec!["s".to_string()] }));
    assert_eq!(gui.saved_games.saved_games, vec!["s".to_string()]);
    gui.apply_telemetry(Tlm::GameStopped);
    assert!(!gui.game_running);
    assert_eq!(gui.game_speed, GameSpeed::Speed4X);
}

#[test]
fn gui_stays_in_step_with_server() {
    let mut server = manager_with_saves(&["s1"]);
    let mut gui = ServerState::new(0u32);
    let cmds = vec![
        Cmd::SetSpeed(SetSpeedPld { speed: GameSpeed::Speed2X }),
        Cmd::ReqSavedGamesList,
        Cmd::StopGame,
        Cmd::SetSpeed(SetSpeedPld { speed: GameSpeed::Speed40X }),
    ];
    for tlm in server.start_game(1) {
        gui.apply_telemetry(tlm);
    }
    assert!(gui.game_running && server.state.game_running);
    for cmd in cmds {
        if let ServerAction::Send(tlm) = server.process_command(cmd) {
            gui.apply_telemetry(tlm);
        }
        assert_eq!(gui.game_running, server.state.game_running);
        assert_eq!(gui.game_speed, server.state.game_speed);
    }
    assert_eq!(gui.saved_games.saved_games, vec!["s1".to_string()]);
}

#[test]
fn save_paths_are_one_per_name() {
    let mut m = GameManager::new(0u32);
    let mut path_of = |name: &str| match m.process_command(Cmd::SaveGame(SaveGamePld { name: name.to_string() })) {
        ServerAction::SaveWorld(p) => p,
        other => panic!("unexpected {:?}", other),
    };
    let first = path_of("a");
    let again = path_of("a");
    let other = path_of("b");
    assert_eq!(first, again);
    assert_ne!(first, other);
    assert_eq!(other, "saved_games/b.json");
}

#[test]
fn simulate_compares_times_to_the_nanosecond() {
    let mut m = GameManager::new(0u32);
    m.start_game(1);
    m.set_speed(GameSpeed::Speed40X);
    assert!(m.simulate(1000 * MS + 900_000));
    assert!(!m.simulate(1025 * MS));
    assert!(!m.simulate(1025 * MS + 899_999));
    assert!(m.simulate(1025 * MS + 900_000));
    assert_eq!(m.last_sim_time, 1025 * MS + 900_000);
}

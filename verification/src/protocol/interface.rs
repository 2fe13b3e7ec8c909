//! The GUI's picture of the server, kept up to date from telemetries.

use vstd::prelude::*;

use crate::game::common::GameSpeed;
use crate::protocol::tlm::{SavedGamesPld, Tlm};

verus! {

/// Overall state of the server containing the latest telemetries from the
/// server; `W` is the type of the game world.
#[derive(Debug)]
pub struct ServerState<W> {
    /// True while a game is running.
    pub game_running: bool,
    /// Latest known game speed.
    pub game_speed: GameSpeed,
    /// Latest known state of the game world.
    pub game_state: W,
    /// Latest known list of saved games.
    pub saved_games: SavedGamesPld,
}

/// The state after one telemetry has been taken in: each telemetry replaces
/// exactly the part of the state that it reports.
pub open spec fn after_telemetry<W>(s: ServerState<W>, tlm: Tlm<W>) -> ServerState<W> {
    match tlm {
        Tlm::GameStarted => ServerState { game_running: true, ..s },
        Tlm::GameStopped => ServerState { game_running: false, ..s },
        Tlm::GameState(world) => ServerState { game_state: world, ..s },
        Tlm::SavedGames(list) => ServerState { saved_games: list, ..s },
        Tlm::SpeedChanged(speed) => ServerState { game_speed: speed, ..s },
    }
}

impl<W> ServerState<W> {
    /// Create a new server state: no game running, paused, no saved games.
    pub fn new(world: W) -> (res: Self)
        ensures
            !res.game_running,
            res.game_speed == GameSpeed::Paused,
            res.game_state == world,
            res.saved_games.saved_games@.len() == 0,
    {
        Self {
            game_running: false,
            game_speed: GameSpeed::Paused,
            game_state: world,
            saved_games: SavedGamesPld { saved_games: Vec::new() },
        }
    }

    /// Take in one telemetry received from the server.
    pub fn apply_telemetry(&mut self, tlm: Tlm<W>)
        ensures
            *final(self) == after_telemetry(*old(self), tlm),
    {
        match tlm {
            Tlm::GameStarted => self.game_running = true,
            Tlm::GameStopped => self.game_running = false,
            Tlm::GameState(new_state) => self.game_state = new_state,
            Tlm::SavedGames(list) => self.saved_games = list,
            Tlm::SpeedChanged(new_speed) => self.game_speed = new_speed,
        }
    }
}

/// Each telemetry changes only the part of the state that it reports; in
/// particular the periodic world telemetry never starts or stops a game in the
/// GUI's picture.
pub proof fn law_telemetry_changes_only_its_part<W>(s: ServerState<W>, tlm: Tlm<W>)
    ensures
        !(tlm is GameStarted || tlm is GameStopped) ==> after_telemetry(s, tlm).game_running
            == s.game_running,
        tlm is GameStarted ==> after_telemetry(s, tlm).game_running,
        tlm is GameStopped ==> !after_telemetry(s, tlm).game_running,
        !(tlm is SpeedChanged) ==> after_telemetry(s, tlm).game_speed == s.game_speed,
        tlm matches Tlm::SpeedChanged(sp) ==> after_telemetry(s, tlm).game_speed == sp,
        !(tlm is GameState) ==> after_telemetry(s, tlm).game_state == s.game_state,
        tlm matches Tlm::GameState(w) ==> after_telemetry(s, tlm).game_state == w,
        !(tlm is SavedGames) ==> after_telemetry(s, tlm).saved_games == s.saved_games,
        tlm matches Tlm::SavedGames(l) ==> after_telemetry(s, tlm).saved_games == l,
{
}

} // verus!

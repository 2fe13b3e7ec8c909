//! Decision logic of the game server.
//!
//! The server loop itself (channels, files, clock, the game world's own
//! simulation) runs outside this module: it hands each event to a
//! `GameManager` and carries out the `ServerAction` that comes back.

use vstd::prelude::*;

use crate::game::common::GameSpeed;
use crate::protocol::cmd::{Cmd, LoadGamePld, NewGamePld};
use crate::protocol::interface::{after_telemetry, ServerState};
use crate::protocol::tlm::{SavedGamesPld, Tlm};

verus! {

/// Path where the save files are stored, relative to the executable.
pub const SAVE_FILE_PATH: &'static str = "saved_games";

/// Time for each main loop iteration, in nanoseconds (25 ms).
pub const ITERATION_TIME: u64 = 25_000_000;

/// Reference time for the game speed: the length of a day at normal speed,
/// in nanoseconds (1 s).
pub const REFERENCE_TIME: u64 = 1_000_000_000;

/// How many times faster than normal a speed runs; 0 when paused.
pub open spec fn speed_factor(speed: GameSpeed) -> u64 {
    match speed {
        GameSpeed::Paused => 0,
        GameSpeed::Speed1X => 1,
        GameSpeed::Speed2X => 2,
        GameSpeed::Speed4X => 4,
        GameSpeed::Speed10X => 10,
        GameSpeed::Speed40X => 40,
    }
}

/// Time that has to pass before one day is simulated, in nanoseconds: the
/// reference time divided by the speed factor, and 0 when paused.
pub open spec fn day_length(speed: GameSpeed) -> u64 {
    if speed_factor(speed) == 0 {
        0
    } else {
        (REFERENCE_TIME / speed_factor(speed)) as u64
    }
}

/// The file in which a game saved under `name` is stored.
pub open spec fn save_file_path(name: Seq<char>) -> Seq<char> {
    SAVE_FILE_PATH@ + "/"@ + name + ".json"@
}

/// True if `name` is one of the listed saved games.
pub open spec fn is_listed(list: Seq<String>, name: Seq<char>) -> bool {
    exists|i: int| 0 <= i < list.len() && (#[trigger] list[i])@ == name
}

/// The names among the results of a search for saved games, in order,
/// leaving out the results that yielded no name.
pub open spec fn present_names(found: Seq<Option<String>>) -> Seq<String>
    decreases found.len(),
{
    if found.len() == 0 {
        Seq::empty()
    } else {
        let rest = present_names(found.drop_last());
        match found.last() {
            Some(name) => rest.push(name),
            None => rest,
        }
    }
}

/// Work that the server loop has to carry out after a command.
#[derive(Debug)]
pub enum ServerAction<W> {
    /// Nothing to do.
    Nothing,
    /// Send this telemetry to the GUI.
    Send(Tlm<W>),
    /// Build the world of a new game from these settings and start it with
    /// `start_game`.
    CreateWorld(NewGamePld),
    /// Write the current game world to this file.
    SaveWorld(String),
    /// Read the game world stored in this file and, if it can be read,
    /// start it with `start_game`.
    LoadWorld(String),
    /// Delete this saved game file and refresh the list of saved games.
    DeleteSave(String),
}

/// State of the game server; `W` is the type of the game world.
#[derive(Debug)]
pub struct GameManager<W> {
    /// Loop control variable.
    pub active: bool,
    /// State variable used for running the game logic.
    pub state: ServerState<W>,
    /// Time that needs to pass before simulating one day, in nanoseconds.
    pub time_per_day: u64,
    /// Last time when the simulation was updated, in nanoseconds.
    pub last_sim_time: u64,
}

/// The server after its speed has been set.
pub open spec fn with_speed<W>(m: GameManager<W>, speed: GameSpeed) -> GameManager<W> {
    GameManager {
        state: ServerState { game_speed: speed, ..m.state },
        time_per_day: day_length(speed),
        ..m
    }
}

/// The server after `world` has been started as the running game: paused
/// and running.
pub open spec fn after_start<W>(m: GameManager<W>, world: W) -> GameManager<W> {
    let paused = with_speed(GameManager { state: ServerState { game_state: world, ..m.state }, ..m }, GameSpeed::Paused);
    GameManager { state: ServerState { game_running: true, ..paused.state }, ..paused }
}

/// What handling one command does: `new` is the server after it and `act`
/// the work left to the server loop.
pub open spec fn command_outcome<W>(
    old: GameManager<W>,
    cmd: Cmd,
    new: GameManager<W>,
    act: ServerAction<W>,
) -> bool {
    match cmd {
        Cmd::NewGame(p) => new == old && act == ServerAction::<W>::CreateWorld(p),
        Cmd::SaveGame(p) => new == old && (act matches ServerAction::SaveWorld(path) && path@
            == save_file_path(p.name@)),
        Cmd::ReqSavedGamesList => new == old && (act matches ServerAction::Send(
            Tlm::SavedGames(list),
        ) && list.saved_games@ == old.state.saved_games.saved_games@),
        Cmd::LoadGame(p) => new == old && if is_listed(
            old.state.saved_games.saved_games@,
            p.name@,
        ) {
            act matches ServerAction::LoadWorld(path) && path@ == p.name@
        } else {
            act == ServerAction::<W>::Nothing
        },
        Cmd::DeleteSavedGame(p) => new == old && (act matches ServerAction::DeleteSave(path)
            && path@ == p.name@),
        Cmd::SetSpeed(p) => new == with_speed(old, p.speed) && act == ServerAction::Send(
            Tlm::<W>::SpeedChanged(p.speed),
        ),
        Cmd::StopGame => new == GameManager {
            state: ServerState { game_running: false, ..old.state },
            ..old
        } && act == ServerAction::Send(Tlm::<W>::GameStopped),
        Cmd::CloseServer => new == GameManager { active: false, ..old } && act
            == ServerAction::<W>::Nothing,
    }
}

/// Check whether `name` is one of the listed saved games.
fn is_saved_game(list: &Vec<String>, name: &String) -> (res: bool)
    ensures
        res == is_listed(list@, name@),
{
    let mut i: usize = 0;
    while i < list.len()
        invariant
            i <= list@.len(),
            forall|j: int| 0 <= j < i ==> (#[trigger] list@[j])@ != name@,
        decreases list@.len() - i,
    {
        if list[i] == *name {
            assert(list@[i as int]@ == name@);
            return true;
        }
        i = i + 1;
    }
    false
}

/// Copy a list of names.
fn copy_names(list: &Vec<String>) -> (res: Vec<String>)
    ensures
        res@ == list@,
{
    let mut out: Vec<String> = Vec::new();
    let mut i: usize = 0;
    while i < list.len()
        invariant
            i <= list@.len(),
            out@ == list@.take(i as int),
        decreases list@.len() - i,
    {
        out.push(list[i].clone());
        assert(list@.take(i + 1) =~= list@.take(i as int).push(list@[i as int]));
        i = i + 1;
    }
    assert(list@.take(list@.len() as int) =~= list@);
    out
}

impl<W> GameManager<W> {
    /// The time per day always matches the current speed.
    pub open spec fn wf(&self) -> bool {
        self.time_per_day == day_length(self.state.game_speed)
    }

    /// Create a new game manager: inactive, no game running, paused, no
    /// saved games, clock at zero.
    pub fn new(world: W) -> (res: Self)
        ensures
            res.wf(),
            !res.active,
            !res.state.game_running,
            res.state.game_speed == GameSpeed::Paused,
            res.state.game_state == world,
            res.state.saved_games.saved_games@.len() == 0,
            res.time_per_day == 0,
            res.last_sim_time == 0,
    {
        GameManager {
            active: false,
            state: ServerState::new(world),
            time_per_day: 0,
            last_sim_time: 0,
        }
    }

    /// Set the game speed and the matching time per day; returns the
    /// telemetry that announces the new speed.
    pub fn set_speed(&mut self, speed: GameSpeed) -> (res: Tlm<W>)
        ensures
            *final(self) == with_speed(*old(self), speed),
            final(self).wf(),
            res == Tlm::<W>::SpeedChanged(speed),
    {
        self.state.game_speed = speed;
        self.time_per_day = match speed {
            GameSpeed::Paused => 0,
            GameSpeed::Speed1X => REFERENCE_TIME / 1,
            GameSpeed::Speed2X => REFERENCE_TIME / 2,
            GameSpeed::Speed4X => REFERENCE_TIME / 4,
            GameSpeed::Speed10X => REFERENCE_TIME / 10,
            GameSpeed::Speed40X => REFERENCE_TIME / 40,
        };
        Tlm::SpeedChanged(speed)
    }

    /// Start `world` as the running game, paused; returns the telemetries to
    /// send, in order: the speed change, then the game start.
    pub fn start_game(&mut self, world: W) -> (res: Vec<Tlm<W>>)
        ensures
            *final(self) == after_start(*old(self), world),
            final(self).wf(),
            res@ == seq![Tlm::<W>::SpeedChanged(GameSpeed::Paused), Tlm::<W>::GameStarted],
    {
        self.state.game_state = world;
        let speed_tlm = self.set_speed(GameSpeed::Paused);
        self.state.game_running = true;
        let mut tlms: Vec<Tlm<W>> = Vec::new();
        tlms.push(speed_tlm);
        tlms.push(Tlm::GameStarted);
        tlms
    }

    /// Handle one command from the GUI.
    pub fn process_command(&mut self, cmd: Cmd) -> (res: ServerAction<W>)
        ensures
            command_outcome(*old(self), cmd, *final(self), res),
    {
        match cmd {
            Cmd::NewGame(cmd_data) => ServerAction::CreateWorld(cmd_data),
            Cmd::SaveGame(cmd_data) => {
                let mut path = String::from_str(SAVE_FILE_PATH);
                path.append("/");
                path.append(cmd_data.name.as_str());
                path.append(".json");
                ServerAction::SaveWorld(path)
            },
            Cmd::ReqSavedGamesList => {
                let list = copy_names(&self.state.saved_games.saved_games);
                ServerAction::Send(Tlm::SavedGames(SavedGamesPld { saved_games: list }))
            },
            Cmd::LoadGame(cmd_data) => {
                if is_saved_game(&self.state.saved_games.saved_games, &cmd_data.name) {
                    ServerAction::LoadWorld(cmd_data.name)
                } else {
                    ServerAction::Nothing
                }
            },
            Cmd::DeleteSavedGame(cmd_data) => ServerAction::DeleteSave(cmd_data.name),
            Cmd::SetSpeed(cmd_data) => ServerAction::Send(self.set_speed(cmd_data.speed)),
            Cmd::StopGame => {
                self.state.game_running = false;
                ServerAction::Send(Tlm::GameStopped)
            },
            Cmd::CloseServer => {
                self.active = false;
                ServerAction::Nothing
            },
        }
    }

    /// Decide whether one day is to be simulated at time `now` (in
    /// nanoseconds): only while a game is running, the game is not paused
    /// and at least the time per day has passed since the last simulated day.
    /// When a day is due, `now` becomes the time of the last simulation.
    pub fn simulate(&mut self, now: u64) -> (res: bool)
        requires
            old(self).state.game_running && old(self).state.game_speed != GameSpeed::Paused
                ==> now >= old(self).last_sim_time,
        ensures
            res == (old(self).state.game_running && old(self).state.game_speed
                != GameSpeed::Paused && now - old(self).last_sim_time >= old(self).time_per_day),
            !old(self).state.game_running ==> !res && *final(self) == *old(self),
            res ==> *final(self) == (GameManager { last_sim_time: now, ..*old(self) }),
            !res ==> *final(self) == *old(self),
    {
        if !self.state.game_running {
            return false;
        }
        match self.state.game_speed {
            GameSpeed::Paused => false,
            _ => {
                if now - self.last_sim_time < self.time_per_day {
                    return false;
                }
                self.last_sim_time = now;
                true
            },
        }
    }

    /// Replace the list of saved games with the names found by a search for
    /// save files, in order, leaving out results that yielded no name.
    pub fn update_saved_files(&mut self, found: Vec<Option<String>>)
        ensures
            final(self).state.saved_games.saved_games@ == present_names(found@),
            final(self).active == old(self).active,
            final(self).state.game_running == old(self).state.game_running,
            final(self).state.game_speed == old(self).state.game_speed,
            final(self).state.game_state == old(self).state.game_state,
            final(self).time_per_day == old(self).time_per_day,
            final(self).last_sim_time == old(self).last_sim_time,
    {
        let mut names: Vec<String> = Vec::new();
        let mut i: usize = 0;
        while i < found.len()
            invariant
                i <= found@.len(),
                names@ == present_names(found@.take(i as int)),
            decreases found@.len() - i,
        {
            assert(found@.take(i + 1).drop_last() =~= found@.take(i as int));
            match &found[i] {
                Some(name) => names.push(name.clone()),
                None => {},
            }
            i = i + 1;
        }
        assert(found@.take(found@.len() as int) =~= found@);
        self.state.saved_games.saved_games = names;
    }
}

/// True if the GUI's picture of the server agrees with the server on whether
/// a game is running and at what speed.
pub open spec fn in_step<W>(gui: ServerState<W>, server: ServerState<W>) -> bool {
    gui.game_running == server.game_running && gui.game_speed == server.game_speed
}

/// A GUI that is in step with the server stays in step after the server has
/// handled any command and the GUI has taken in the telemetry sent for it
/// (if any).
pub proof fn law_telemetry_keeps_gui_in_step<W>(
    old: GameManager<W>,
    cmd: Cmd,
    new: GameManager<W>,
    act: ServerAction<W>,
    gui: ServerState<W>,
)
    requires
        command_outcome(old, cmd, new, act),
        in_step(gui, old.state),
    ensures
        match act {
            ServerAction::Send(t) => in_step(after_telemetry(gui, t), new.state),
            _ => in_step(gui, new.state),
        },
{
}

/// The world telemetry that the server sends on every loop iteration keeps a
/// GUI in step with the server whatever the server's state, in particular
/// while no game is running.
pub proof fn law_world_telemetry_keeps_gui_in_step<W>(
    server: GameManager<W>,
    gui: ServerState<W>,
    world: W,
)
    requires
        in_step(gui, server.state),
    ensures
        in_step(after_telemetry(gui, Tlm::GameState(world)), server.state),
        after_telemetry(gui, Tlm::GameState(world)).game_running == gui.game_running,
{
}

/// After the GUI has taken in the answer to a request for the saved games,
/// its list is the server's list.
pub proof fn law_saved_games_answer<W>(
    old: GameManager<W>,
    new: GameManager<W>,
    act: ServerAction<W>,
    gui: ServerState<W>,
)
    requires
        command_outcome(old, Cmd::ReqSavedGamesList, new, act),
    ensures
        act matches ServerAction::Send(t) && after_telemetry(gui, t).saved_games.saved_games@
            == new.state.saved_games.saved_games@,
{
}

/// A GUI in step with the server stays in step after the server has started
/// a game and the GUI has taken in both telemetries, in the order sent; the
/// game then runs, paused.
pub proof fn law_start_keeps_gui_in_step<W>(old: GameManager<W>, world: W, gui: ServerState<W>)
    requires
        in_step(gui, old.state),
    ensures
        in_step(
            after_telemetry(
                after_telemetry(gui, Tlm::SpeedChanged(GameSpeed::Paused)),
                Tlm::GameStarted,
            ),
            after_start(old, world).state,
        ),
        after_start(old, world).state.game_running,
        after_start(old, world).state.game_speed == GameSpeed::Paused,
{
}

/// Each save name has a file of its own: saving again under a name writes
/// the file of the earlier save with that name, and saves under different
/// names never share a file.
pub proof fn law_save_path_per_name(a: Seq<char>, b: Seq<char>)
    ensures
        save_file_path(a) == save_file_path(b) <==> a == b,
{
    let pre = SAVE_FILE_PATH@ + "/"@;
    let suf = ".json"@;
    if save_file_path(a) == save_file_path(b) {
        assert(save_file_path(a) == pre + a + suf);
        assert(save_file_path(b) == pre + b + suf);
        assert((pre + a + suf).len() == (pre + b + suf).len());
        assert(a =~= (pre + a + suf).subrange(pre.len() as int, (pre.len() + a.len()) as int));
        assert(b =~= (pre + b + suf).subrange(pre.len() as int, (pre.len() + b.len()) as int));
    }
}

/// A saved game at any position of the list is loaded: asking for a name
/// that equals the list's entry at index `i` leads to reading that file.
pub proof fn law_listed_game_is_loaded<W>(
    old: GameManager<W>,
    p: LoadGamePld,
    new: GameManager<W>,
    act: ServerAction<W>,
    i: int,
)
    requires
        command_outcome(old, Cmd::LoadGame(p), new, act),
        0 <= i < old.state.saved_games.saved_games@.len(),
        old.state.saved_games.saved_games@[i]@ == p.name@,
    ensures
        new == old,
        act matches ServerAction::LoadWorld(path) && path@ == p.name@,
{
    assert(is_listed(old.state.saved_games.saved_games@, p.name@));
}

/// Every command keeps the time per day matching the speed.
pub proof fn law_commands_keep_day_length<W>(
    old: GameManager<W>,
    cmd: Cmd,
    new: GameManager<W>,
    act: ServerAction<W>,
)
    requires
        old.wf(),
        command_outcome(old, cmd, new, act),
    ensures
        new.wf(),
{
}

/// A saved game that is not listed is never loaded: the command changes
/// nothing and leaves nothing to do.
pub proof fn law_unlisted_game_not_loaded<W>(
    old: GameManager<W>,
    cmd: Cmd,
    new: GameManager<W>,
    act: ServerAction<W>,
)
    requires
        command_outcome(old, cmd, new, act),
        cmd matches Cmd::LoadGame(p) && !is_listed(old.state.saved_games.saved_games@, p.name@),
    ensures
        new == old,
        act == ServerAction::<W>::Nothing,
{
}

} // verus!

//! Data for a single game, as created from the GUI's settings.

use vstd::prelude::*;
use vstd::utf8::{decode_utf8, valid_utf8};

use crate::game::date::GameDate;
use crate::protocol::gui_to_server::NewGamePld;
use crate::text::{string_from_utf8_lossy, utf8_lossy};

verus! {

/// Data for a single game.
#[derive(Clone, Debug)]
pub struct GameData {
    /// Name of the player's civilisation.
    civ_name: String,
    /// Current game date.
    date: GameDate,
}

/// What a `GameData` holds.
pub struct GameDataView {
    /// Name of the player's civilisation.
    pub civ_name: Seq<char>,
    /// Current game date.
    pub date: GameDate,
}

impl View for GameData {
    type V = GameDataView;

    closed spec fn view(&self) -> GameDataView {
        GameDataView { civ_name: self.civ_name@, date: self.date }
    }
}

impl GameData {
    /// Create a game on the first day of the calendar for the given civilisation.
    pub fn with_civ_name(civ_name: String) -> (res: Self)
        ensures
            res@.civ_name == civ_name@,
            res@.date == GameDate::first_day(),
    {
        Self { civ_name, date: GameDate::new(1, 1, 1) }
    }

    /// Create a new, empty game.
    pub fn new() -> (res: Self)
        ensures
            res@.civ_name == "NO NAME"@,
            res@.date == GameDate::first_day(),
    {
        Self::with_civ_name(String::from_str("NO NAME"))
    }

    /// Create a new game from some settings: the civilisation name is the
    /// name field decoded as UTF-8, invalid sequences replaced.
    pub fn from_settings(settings: &NewGamePld) -> (res: Self)
        ensures
            res@.civ_name == utf8_lossy(settings.civ_name@),
            valid_utf8(settings.civ_name@) ==> res@.civ_name == decode_utf8(settings.civ_name@),
            res@.date == GameDate::first_day(),
    {
        let name = string_from_utf8_lossy(settings.civ_name.as_slice());
        Self::with_civ_name(name)
    }
}

} // verus!

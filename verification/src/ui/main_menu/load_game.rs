//! Load game page of the main menu.

use vstd::prelude::*;

use crate::protocol::cmd::{Cmd, LoadGamePld};
use crate::ui::main_menu::main_menu::{MainMenuScene, MenuButton};

verus! {

/// Load game page of the main menu.
#[derive(Debug)]
pub struct LoadGameState {}

impl LoadGameState {
    /// What pressing `button` on this page does: the button of a listed
    /// saved game asks to load that game, "Back" leads to the main menu page,
    /// other buttons do nothing.
    pub open spec fn press_outcome(
        button: MenuButton,
        saved_games: Seq<String>,
        old_scene: MainMenuScene,
        new_scene: MainMenuScene,
        res: Option<Cmd>,
    ) -> bool {
        match button {
            MenuButton::SavedGame(i) => new_scene == old_scene && if i < saved_games.len() {
                res matches Some(Cmd::LoadGame(p)) && p.name@ == saved_games[i as int]@
            } else {
                res is None
            },
            MenuButton::Back => new_scene == MainMenuScene::MainMenu && res is None,
            _ => new_scene == old_scene && res is None,
        }
    }

    /// React to a button of this page; returns the command to send, if any.
    pub fn on_press(
        &self,
        button: MenuButton,
        scene: &mut MainMenuScene,
        saved_games: &Vec<String>,
    ) -> (res: Option<Cmd>)
        ensures
            LoadGameState::press_outcome(button, saved_games@, *old(scene), *final(scene), res),
    {
        match button {
            MenuButton::SavedGame(i) => {
                if i < saved_games.len() {
                    Some(Cmd::LoadGame(LoadGamePld { name: saved_games[i].clone() }))
                } else {
                    None
                }
            },
            MenuButton::Back => {
                *scene = MainMenuScene::MainMenu;
                None
            },
            _ => None,
        }
    }
}

/// Every listed saved game, the first one included, has a button that asks
/// to load exactly that game, and pressing it stays on the page.
pub proof fn law_saved_game_button_loads_it(
    saved_games: Seq<String>,
    i: usize,
    old_scene: MainMenuScene,
    new_scene: MainMenuScene,
    res: Option<Cmd>,
)
    requires
        LoadGameState::press_outcome(
            MenuButton::SavedGame(i),
            saved_games,
            old_scene,
            new_scene,
            res,
        ),
        i < saved_games.len(),
    ensures
        new_scene == old_scene,
        res matches Some(Cmd::LoadGame(p)) && p.name@ == saved_games[i as int]@,
{
}

} // verus!

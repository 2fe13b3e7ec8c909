//! New game page of the main menu.

use vstd::prelude::*;

use crate::protocol::cmd::{Cmd, NewGamePld};
use crate::ui::main_menu::main_menu::{MainMenuScene, MenuButton};

verus! {

/// New game page of the main menu.
#[derive(Debug)]
pub struct NewGameState {
    /// Name typed in for the new civilisation.
    pub civ_name: String,
}

impl NewGameState {
    /// What pressing `button` on this page does: "Start" asks for a new game
    /// with the typed name, "Back" leads to the main menu page, other buttons
    /// do nothing.
    pub open spec fn press_outcome(
        self,
        button: MenuButton,
        old_scene: MainMenuScene,
        new_scene: MainMenuScene,
        res: Option<Cmd>,
    ) -> bool {
        match button {
            MenuButton::Start => new_scene == old_scene && (res matches Some(Cmd::NewGame(p))
                && p.civ_name@ == self.civ_name@),
            MenuButton::Back => new_scene == MainMenuScene::MainMenu && res is None,
            _ => new_scene == old_scene && res is None,
        }
    }

    /// React to a button of this page; returns the command to send, if any.
    pub fn on_press(&self, button: MenuButton, scene: &mut MainMenuScene) -> (res: Option<Cmd>)
        ensures
            self.press_outcome(button, *old(scene), *final(scene), res),
    {
        match button {
            MenuButton::Start => Some(
                Cmd::NewGame(NewGamePld { civ_name: self.civ_name.clone() }),
            ),
            MenuButton::Back => {
                *scene = MainMenuScene::MainMenu;
                None
            },
            _ => None,
        }
    }
}

} // verus!

//! Options page of the main menu.

use vstd::prelude::*;

use crate::protocol::cmd::Cmd;
use crate::ui::main_menu::main_menu::{MainMenuScene, MenuButton};

verus! {

/// Options page of the main menu.
#[derive(Debug)]
pub struct OptionsState {}

impl OptionsState {
    /// What pressing `button` on this page does: "Back" leads to the main
    /// menu page, other buttons do nothing; no command is ever sent.
    pub open spec fn press_outcome(
        button: MenuButton,
        old_scene: MainMenuScene,
        new_scene: MainMenuScene,
        res: Option<Cmd>,
    ) -> bool {
        &&& res is None
        &&& new_scene == if button == MenuButton::Back {
            MainMenuScene::MainMenu
        } else {
            old_scene
        }
    }

    /// React to a button of this page; it never sends a command.
    pub fn on_press(&self, button: MenuButton, scene: &mut MainMenuScene) -> (res: Option<Cmd>)
        ensures
            OptionsState::press_outcome(button, *old(scene), *final(scene), res),
    {
        match button {
            MenuButton::Back => {
                *scene = MainMenuScene::MainMenu;
            },
            _ => {},
        }
        None
    }
}

} // verus!

//! Main menu and navigation between its pages.

use vstd::prelude::*;

use crate::protocol::cmd::Cmd;
use crate::ui::main_menu::load_game::LoadGameState;
use crate::ui::main_menu::new_game::NewGameState;
use crate::ui::main_menu::options::OptionsState;

verus! {

/// Overall scenes of the UI.
#[derive(Clone, Copy, Debug, PartialEq, Eq, Structural)]
pub enum MainMenuScene {
    /// Main menu page.
    MainMenu,
    /// New game page of the main menu.
    NewGame,
    /// Load game page of the main menu.
    LoadGame,
    /// Options page of the main menu.
    Options,
}

/// Buttons of the main menu pages.
#[derive(Clone, Copy, Debug, PartialEq, Eq, Structural)]
pub enum MenuButton {
    /// "New Game" on the main menu page.
    NewGame,
    /// "Load Game" on the main menu page.
    LoadGame,
    /// "Options" on the main menu page.
    Options,
    /// "Start" on the new game page.
    Start,
    /// "Back" on any page but the main menu page.
    Back,
    /// The button of the saved game with this index on the load game page.
    SavedGame(usize),
}

/// State of the main menu.
#[derive(Debug)]
pub struct MainMenuState {
    /// Current main menu scene.
    pub scene: MainMenuScene,
    /// New game page of the main menu.
    pub new_game: NewGameState,
    /// Load game page of the main menu.
    pub load_game: LoadGameState,
    /// Options page of the main menu.
    pub options: OptionsState,
}

/// What pressing `button` on the main menu page does: the three buttons of
/// the page lead to their pages, "Load Game" also asks for the saved games;
/// other buttons leave the scene as it was and send nothing.
pub open spec fn main_page_outcome(
    button: MenuButton,
    old_scene: MainMenuScene,
    new_scene: MainMenuScene,
    res: Option<Cmd>,
) -> bool {
    match button {
        MenuButton::NewGame => new_scene == MainMenuScene::NewGame && res is None,
        MenuButton::LoadGame => new_scene == MainMenuScene::LoadGame && res == Some(
            Cmd::ReqSavedGamesList,
        ),
        MenuButton::Options => new_scene == MainMenuScene::Options && res is None,
        _ => new_scene == old_scene && res is None,
    }
}

/// What pressing `button` on the page `shown` does to a menu whose scene was
/// `old_scene`.
pub open spec fn menu_press_outcome(
    shown: MainMenuScene,
    new_game: NewGameState,
    button: MenuButton,
    saved_games: Seq<String>,
    old_scene: MainMenuScene,
    new_scene: MainMenuScene,
    res: Option<Cmd>,
) -> bool {
    match shown {
        MainMenuScene::MainMenu => main_page_outcome(button, old_scene, new_scene, res),
        MainMenuScene::NewGame => new_game.press_outcome(button, old_scene, new_scene, res),
        MainMenuScene::LoadGame => LoadGameState::press_outcome(
            button,
            saved_games,
            old_scene,
            new_scene,
            res,
        ),
        MainMenuScene::Options => OptionsState::press_outcome(button, old_scene, new_scene, res),
    }
}

impl MainMenuState {
    /// Create the main menu, on its main page, with "My Civ" proposed as the
    /// name of a new civilisation.
    pub fn new() -> (res: Self)
        ensures
            res.scene == MainMenuScene::MainMenu,
            res.new_game.civ_name@ == "My Civ"@,
    {
        Self {
            scene: MainMenuScene::MainMenu,
            new_game: NewGameState { civ_name: String::from_str("My Civ") },
            load_game: LoadGameState {  },
            options: OptionsState {  },
        }
    }

    /// React to a button pressed on the page `shown`, the page drawn in this
    /// frame; returns the command to send to the server, if any. Every button
    /// pressed in one frame is handled against the page drawn in that frame,
    /// so the scene ends as set by the last press that changes it. Buttons
    /// that the page does not show change nothing.
    pub fn on_press(
        &mut self,
        shown: MainMenuScene,
        button: MenuButton,
        saved_games: &Vec<String>,
    ) -> (res: Option<Cmd>)
        ensures
            final(self).new_game == old(self).new_game,
            menu_press_outcome(
                shown,
                old(self).new_game,
                button,
                saved_games@,
                old(self).scene,
                final(self).scene,
                res,
            ),
    {
        match shown {
            MainMenuScene::MainMenu => match button {
                MenuButton::NewGame => {
                    self.scene = MainMenuScene::NewGame;
                    None
                },
                MenuButton::LoadGame => {
                    self.scene = MainMenuScene::LoadGame;
                    Some(Cmd::ReqSavedGamesList)
                },
                MenuButton::Options => {
                    self.scene = MainMenuScene::Options;
                    None
                },
                _ => None,
            },
            MainMenuScene::NewGame => self.new_game.on_press(button, &mut self.scene),
            MainMenuScene::LoadGame => self.load_game.on_press(button, &mut self.scene, saved_games),
            MainMenuScene::Options => self.options.on_press(button, &mut self.scene),
        }
    }
}

/// Going back from any page but the main menu page leads to the main menu
/// page and sends nothing.
pub proof fn law_back_returns_to_main_menu(
    shown: MainMenuScene,
    new_game: NewGameState,
    saved_games: Seq<String>,
    old_scene: MainMenuScene,
    new_scene: MainMenuScene,
    res: Option<Cmd>,
)
    requires
        shown != MainMenuScene::MainMenu,
        menu_press_outcome(
            shown,
            new_game,
            MenuButton::Back,
            saved_games,
            old_scene,
            new_scene,
            res,
        ),
    ensures
        new_scene == MainMenuScene::MainMenu,
        res is None,
{
}

} // verus!
